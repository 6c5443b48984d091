use launcher_core::launcher::{window_height_for, Effect, IcedLauncher, LayerEvent, Message, Session, Warning};
use launcher_core::protocol::{GpuPreference, LauncherEvent, LauncherRequest, LauncherResponse, ResultItem};

fn item(id: u32, name: &str) -> ResultItem {
    ResultItem {
        id,
        name: name.to_string(),
        description: String::new(),
        icon: None,
        category_icon: None,
    }
}

fn items(n: u32) -> Vec<ResultItem> {
    (0..n).map(|i| item(100 + i, "entry")).collect()
}

fn update(list: Vec<ResultItem>) -> Message {
    Message::LauncherEvent(LauncherEvent::Response(LauncherResponse::Update(list)))
}

fn search(q: &str) -> Effect {
    Effect::Send(LauncherRequest::Search(q.to_string()))
}

/// A launcher whose backend session is live.
fn connected() -> IcedLauncher {
    let mut l = IcedLauncher::new(100, 48);
    let e = l.update(Message::LauncherEvent(LauncherEvent::Started));
    assert_eq!(e, vec![search("")]);
    l
}

/// A visible launcher whose backend session is live.
fn shown() -> IcedLauncher {
    let mut l = connected();
    l.update(Message::Toggle);
    l
}

#[test]
fn new_launcher_is_hidden_and_empty() {
    let l = IcedLauncher::new(100, 48);
    assert_eq!(l.surface(), None);
    assert_eq!(l.query(), "");
    assert!(l.items().is_empty());
    assert_eq!(l.selection(), None);
    assert_eq!(l.height(), 100);
    assert_eq!(l.session(), Session::Pending);
}

#[test]
fn toggle_from_hidden_shows_first_surface() {
    let mut l = connected();
    let e = l.update(Message::Toggle);
    assert_eq!(l.surface(), Some(1));
    assert_eq!(l.query(), "");
    assert_eq!(
        e,
        vec![search(""), Effect::FocusInput, Effect::CreateSurface { id: 1, height: 100 }]
    );
    let searches = e.iter().filter(|x| matches!(x, Effect::Send(LauncherRequest::Search(q)) if q.is_empty())).count();
    assert_eq!(searches, 1);
}

#[test]
fn toggles_alternate_and_ids_increase() {
    let mut l = connected();
    let mut created = Vec::new();
    for round in 0..6 {
        let e = l.update(Message::Toggle);
        let live = if l.surface().is_some() { 1 } else { 0 };
        assert!(live <= 1);
        if round % 2 == 0 {
            let id = l.surface().unwrap();
            assert_eq!(e.last(), Some(&Effect::CreateSurface { id, height: 100 }));
            created.push(id);
        } else {
            assert_eq!(l.surface(), None);
            assert_eq!(e, vec![Effect::DestroySurface(*created.last().unwrap())]);
        }
    }
    assert_eq!(created, vec![1, 2, 3]);
}

#[test]
fn update_replaces_results_and_resizes() {
    let mut l = shown();
    let e = l.update(update(items(3)));
    assert_eq!(l.items().len(), 3);
    assert_eq!(l.height(), 244);
    assert_eq!(e, vec![Effect::Resize { id: 1, height: 244 }]);
    let e = l.update(update(Vec::new()));
    assert!(l.items().is_empty());
    assert_eq!(l.height(), 100);
    assert_eq!(e, vec![Effect::Resize { id: 1, height: 100 }]);
}

#[test]
fn window_height_formula() {
    assert_eq!(window_height_for(100, 48, 3), 244);
    assert_eq!(window_height_for(100, 48, 0), 100);
    assert_eq!(window_height_for(0, 1, 7), 7);
    assert_eq!(window_height_for(u32::MAX, u32::MAX, usize::MAX), u64::MAX);
}

#[test]
fn update_while_hidden_keeps_surface_closed() {
    let mut l = connected();
    let e = l.update(update(items(4)));
    assert!(e.is_empty());
    assert_eq!(l.surface(), None);
    assert_eq!(l.items().len(), 4);
    assert_eq!(l.height(), 100 + 48 * 4);
}

#[test]
fn selection_is_clamped_by_update() {
    let mut l = shown();
    l.update(update(items(5)));
    l.update(Message::Select(Some(4)));
    assert_eq!(l.selection(), Some(4));
    l.update(update(items(2)));
    assert_eq!(l.selection(), Some(1));
    l.update(update(Vec::new()));
    assert_eq!(l.selection(), None);
}

#[test]
fn select_past_the_end_is_ignored() {
    let mut l = shown();
    l.update(update(items(2)));
    l.update(Message::Select(Some(1)));
    l.update(Message::Select(Some(2)));
    assert_eq!(l.selection(), Some(1));
    l.update(Message::Select(None));
    assert_eq!(l.selection(), None);
}

#[test]
fn clear_twice_matches_clear_once() {
    let mut l = shown();
    l.update(Message::InputChanged("fi".to_string()));
    l.update(update(items(3)));
    let first = l.update(Message::Clear);
    let after_first = (l.query().to_string(), l.items().clone(), l.selection(), l.height(), l.surface());
    let second = l.update(Message::Clear);
    let after_second = (l.query().to_string(), l.items().clone(), l.selection(), l.height(), l.surface());
    assert_eq!(after_first, after_second);
    assert_eq!(first, second);
    assert_eq!(first, vec![Effect::Resize { id: 1, height: 100 }, search("")]);
    assert_eq!(l.query(), "");
    assert!(l.items().is_empty());
}

#[test]
fn clear_while_hidden_is_ignored() {
    let mut l = connected();
    l.update(update(items(2)));
    let e = l.update(Message::Clear);
    assert!(e.is_empty());
    assert_eq!(l.items().len(), 2);
}

#[test]
fn activate_default_row_then_hide() {
    let mut l = shown();
    let e = l.update(Message::InputChanged("fi".to_string()));
    assert_eq!(e, vec![search("fi")]);
    l.update(update(vec![item(7, "Files")]));
    assert_eq!(l.selection(), None);
    let e = l.update(Message::Activate(None));
    assert_eq!(e, vec![Effect::Send(LauncherRequest::Activate(7))]);
    let e = l.update(Message::SentRequest(LauncherRequest::Activate(7)));
    assert_eq!(e, vec![Effect::DestroySurface(1)]);
    assert_eq!(l.surface(), None);
}

#[test]
fn activate_selected_row() {
    let mut l = shown();
    l.update(update(vec![item(7, "Files"), item(9, "Firefox")]));
    l.update(Message::Select(Some(1)));
    let e = l.update(Message::Activate(None));
    assert_eq!(e, vec![Effect::Send(LauncherRequest::Activate(9))]);
    let e = l.update(Message::Activate(Some(0)));
    assert_eq!(e, vec![Effect::Send(LauncherRequest::Activate(7))]);
}

#[test]
fn sent_search_changes_nothing() {
    let mut l = shown();
    let e = l.update(Message::SentRequest(LauncherRequest::Search("x".to_string())));
    assert!(e.is_empty());
    assert_eq!(l.surface(), Some(1));
}

#[test]
fn hide_keeps_results_and_next_show_resets_query() {
    let mut l = shown();
    l.update(Message::InputChanged("term".to_string()));
    let e = l.update(update(items(5)));
    assert_eq!(e, vec![Effect::Resize { id: 1, height: 100 + 48 * 5 }]);
    let e = l.update(Message::Hide);
    assert_eq!(e, vec![Effect::DestroySurface(1)]);
    assert_eq!(l.surface(), None);
    assert_eq!(l.items().len(), 5);
    let e = l.update(Message::Toggle);
    assert_eq!(l.surface(), Some(2));
    assert_eq!(l.query(), "");
    assert_eq!(l.items().len(), 5);
    assert_eq!(e.last(), Some(&Effect::CreateSurface { id: 2, height: 340 }));
    l.update(update(Vec::new()));
    assert!(l.items().is_empty());
}

#[test]
fn disconnect_drops_later_searches() {
    let mut l = shown();
    l.update(Message::InputChanged("ab".to_string()));
    let e = l.update(Message::LauncherEvent(LauncherEvent::Error("broken pipe".to_string())));
    assert_eq!(e, vec![Effect::Error("broken pipe".to_string())]);
    assert_eq!(l.session(), Session::Lost);
    let e = l.update(Message::InputChanged("abc".to_string()));
    assert_eq!(e, vec![Effect::Dropped(LauncherRequest::Search("abc".to_string()))]);
    assert!(!e.iter().any(|x| matches!(x, Effect::Send(_))));
    assert_eq!(l.query(), "abc");
    assert_eq!(l.surface(), Some(1));
}

#[test]
fn failed_send_marks_session_lost() {
    let mut l = shown();
    let e = l.update(Message::Error("channel closed".to_string()));
    assert_eq!(e, vec![Effect::Error("channel closed".to_string())]);
    assert_eq!(l.session(), Session::Lost);
    let e = l.update(Message::Activate(Some(0)));
    assert!(e.is_empty());
}

#[test]
fn requests_before_start_are_not_sent() {
    let mut l = IcedLauncher::new(100, 48);
    let e = l.update(Message::Toggle);
    assert_eq!(e, vec![Effect::FocusInput, Effect::CreateSurface { id: 1, height: 100 }]);
    let e = l.update(Message::InputChanged("x".to_string()));
    assert!(e.is_empty());
    assert_eq!(l.query(), "x");
}

#[test]
fn activation_out_of_range_is_ignored() {
    let mut l = shown();
    l.update(update(items(2)));
    let e = l.update(Message::Activate(Some(3)));
    assert!(e.is_empty());
    assert_eq!(l.surface(), Some(1));
}

#[test]
fn input_while_hidden_is_ignored() {
    let mut l = connected();
    let e = l.update(Message::InputChanged("zzz".to_string()));
    assert!(e.is_empty());
    assert_eq!(l.query(), "");
    let e = l.update(Message::Activate(Some(0)));
    assert!(e.is_empty());
}

#[test]
fn input_clears_selection() {
    let mut l = shown();
    l.update(update(items(3)));
    l.update(Message::Select(Some(2)));
    l.update(Message::InputChanged("q".to_string()));
    assert_eq!(l.selection(), None);
}

#[test]
fn fill_replaces_query_without_search() {
    let mut l = shown();
    let e = l.update(Message::LauncherEvent(LauncherEvent::Response(LauncherResponse::Fill("firefox".to_string()))));
    assert!(e.is_empty());
    assert_eq!(l.query(), "firefox");
}

#[test]
fn close_response_exits() {
    let mut l = shown();
    let e = l.update(Message::LauncherEvent(LauncherEvent::Response(LauncherResponse::Close)));
    assert_eq!(e, vec![Effect::Exit]);
}

#[test]
fn context_response_is_ignored() {
    let mut l = shown();
    let e = l.update(Message::LauncherEvent(LauncherEvent::Response(LauncherResponse::Context {
        id: 3,
        options: Vec::new(),
    })));
    assert!(e.is_empty());
    assert_eq!(l.surface(), Some(1));
}

#[test]
fn desktop_entry_is_read_then_started() {
    let mut l = shown();
    let e = l.update(Message::LauncherEvent(LauncherEvent::Response(LauncherResponse::DesktopEntry {
        path: "/usr/share/applications/files.desktop".to_string(),
        gpu_preference: GpuPreference::Default,
    })));
    assert_eq!(e, vec![Effect::ReadDesktopEntry("/usr/share/applications/files.desktop".to_string())]);
    let e = l.update(Message::DesktopEntryLoaded {
        path: "/usr/share/applications/files.desktop".to_string(),
        contents: Some("[Desktop Entry]\nName=Files\nExec=nautilus --new-window %U\n".to_string()),
    });
    assert_eq!(e.len(), 2);
    match &e[0] {
        Effect::Spawn(cmd) => {
            assert_eq!(cmd.program, "nautilus");
            assert_eq!(cmd.args, vec!["--new-window".to_string(), "%U".to_string()]);
        }
        other => panic!("unexpected effect {:?}", other),
    }
    assert_eq!(e[1], Effect::DestroySurface(1));
    assert_eq!(l.surface(), None);
}

#[test]
fn desktop_entry_without_command_warns() {
    let mut l = shown();
    let e = l.update(Message::DesktopEntryLoaded {
        path: "/usr/share/applications/files.desktop".to_string(),
        contents: Some("[Desktop Entry]\nName=Files\n".to_string()),
    });
    assert_eq!(e, vec![Effect::Warn(Warning::NoCommand)]);
    assert_eq!(l.surface(), Some(1));
    let e = l.update(Message::DesktopEntryLoaded {
        path: "/nowhere.desktop".to_string(),
        contents: None,
    });
    assert_eq!(e, vec![Effect::Warn(Warning::UnreadableEntry)]);
}

#[test]
fn layer_events_for_other_surfaces_are_ignored() {
    let mut l = shown();
    assert!(l.update(Message::Layer(LayerEvent::Focused(9))).is_empty());
    assert!(l.update(Message::Layer(LayerEvent::Unfocused(9))).is_empty());
    assert!(l.update(Message::Layer(LayerEvent::Other)).is_empty());
    assert_eq!(l.update(Message::Layer(LayerEvent::Focused(1))), vec![Effect::FocusInput]);
    assert_eq!(l.update(Message::Layer(LayerEvent::Unfocused(1))), vec![Effect::DestroySurface(1)]);
    assert_eq!(l.surface(), None);
}

#[test]
fn compositor_close_resets_query_and_searches() {
    let mut l = shown();
    l.update(Message::InputChanged("abc".to_string()));
    assert!(l.update(Message::Closed(5)).is_empty());
    assert_eq!(l.surface(), Some(1));
    let e = l.update(Message::Closed(1));
    assert_eq!(e, vec![search("")]);
    assert_eq!(l.surface(), None);
    assert_eq!(l.query(), "");
    assert!(l.update(Message::Closed(1)).is_empty());
}

#[test]
fn malformed_desktop_entry_warns() {
    let mut l = shown();
    let e = l.update(Message::DesktopEntryLoaded {
        path: "/usr/share/applications/foo.desktop".to_string(),
        contents: Some("[Desktop Entry]\n=x\nExec=foo".to_string()),
    });
    assert_eq!(e, vec![Effect::Warn(Warning::NoCommand)]);
    assert_eq!(l.surface(), Some(1));
}
