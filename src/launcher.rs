//! The visibility orchestrator: the state machine that owns the query, the
//! result list, the selection and the launcher surface.

use vstd::prelude::*;
use crate::desktop_entry::{command_line, entry_command, CommandModel, LaunchCommand};
use crate::protocol::{
    LauncherEvent, LauncherRequest, LauncherResponse, RequestModel, ResultItem,
};

verus! {

/// Where the connection to the search backend stands.
#[derive(Debug, Clone, Copy, PartialEq, Eq, Structural)]
pub enum Session {
    /// No session has started yet; requests are not sent.
    Pending,
    /// A session is live; requests are sent.
    Live,
    /// The session ended; requests are dropped and reported.
    Lost,
}

/// A notification about the launcher surface from the windowing system.
#[derive(Debug, Clone, Copy, PartialEq, Eq, Structural)]
pub enum LayerEvent {
    Focused(u64),
    Unfocused(u64),
    Other,
}

/// An input to the orchestrator.
#[derive(Debug, Clone, PartialEq, Eq)]
pub enum Message {
    /// The text in the search field changed.
    InputChanged(String),
    /// Activate the given row, or the selected one (the first by default).
    Activate(Option<usize>),
    /// Hide the launcher (escape, click outside).
    Hide,
    /// Highlight a row, or none.
    Select(Option<usize>),
    /// Clear the query and the results.
    Clear,
    /// The backend session driver reported something.
    LauncherEvent(LauncherEvent),
    /// A request was handed to the backend.
    SentRequest(LauncherRequest),
    /// A request could not be handed to the backend.
    Error(String),
    /// The windowing system reported on a surface.
    Layer(LayerEvent),
    /// The host bus asked to show or hide the launcher.
    Toggle,
    /// The windowing system closed the surface with this id.
    Closed(u64),
    /// The file of a desktop entry to start was read (`None`: unreadable).
    DesktopEntryLoaded { path: String, contents: Option<String> },
}

/// A problem that is logged and otherwise swallowed.
#[derive(Debug, Clone, Copy, PartialEq, Eq, Structural)]
pub enum Warning {
    /// The desktop entry file could not be read.
    UnreadableEntry,
    /// The desktop entry names no command, or is malformed.
    NoCommand,
}

/// What the surrounding program is asked to do.
#[derive(Debug, Clone, PartialEq, Eq)]
pub enum Effect {
    /// Send a request over the live session.
    Send(LauncherRequest),
    /// A request that could not be sent because the session ended.
    Dropped(LauncherRequest),
    /// Create the launcher surface with this id and height.
    CreateSurface { id: u64, height: u64 },
    /// Destroy the surface with this id.
    DestroySurface(u64),
    /// Give the surface with this id a new height.
    Resize { id: u64, height: u64 },
    /// Move keyboard focus into the search field.
    FocusInput,
    /// Read the desktop entry file at this path.
    ReadDesktopEntry(String),
    /// Start this command, detached.
    Spawn(LaunchCommand),
    /// Log a warning.
    Warn(Warning),
    /// Log an error reported by the session.
    Error(String),
    /// Terminate the whole application.
    Exit,
}

/// The mathematical value of an [`Effect`].
pub enum EffectModel {
    Send(RequestModel),
    Dropped(RequestModel),
    CreateSurface { id: u64, height: u64 },
    DestroySurface(u64),
    Resize { id: u64, height: u64 },
    FocusInput,
    ReadDesktopEntry(Seq<char>),
    Spawn(CommandModel),
    Warn(Warning),
    Error(Seq<char>),
    Exit,
}

impl View for Effect {
    type V = EffectModel;

    open spec fn view(&self) -> EffectModel {
        match self {
            Effect::Send(r) => EffectModel::Send(r@),
            Effect::Dropped(r) => EffectModel::Dropped(r@),
            Effect::CreateSurface { id, height } => EffectModel::CreateSurface { id: *id, height: *height },
            Effect::DestroySurface(id) => EffectModel::DestroySurface(*id),
            Effect::Resize { id, height } => EffectModel::Resize { id: *id, height: *height },
            Effect::FocusInput => EffectModel::FocusInput,
            Effect::ReadDesktopEntry(p) => EffectModel::ReadDesktopEntry(p@),
            Effect::Spawn(c) => EffectModel::Spawn(c@),
            Effect::Warn(w) => EffectModel::Warn(*w),
            Effect::Error(m) => EffectModel::Error(m@),
            Effect::Exit => EffectModel::Exit,
        }
    }
}

/// The views of a list of effects.
pub open spec fn effects_view(e: Seq<Effect>) -> Seq<EffectModel> {
    e.map_values(|x: Effect| x@)
}

/// The mathematical state of the orchestrator.
pub struct LauncherState {
    /// The id of the last surface created; 0 before the first.
    pub id_ctr: u64,
    pub session: Session,
    pub query: Seq<char>,
    pub items: Seq<ResultItem>,
    pub selection: Option<usize>,
    /// The live surface, if the launcher is visible.
    pub surface: Option<u64>,
    pub base_height: u32,
    pub item_height: u32,
    /// The window height for the current result list.
    pub height: u64,
}

/// `base + unit * count`, saturated at the largest `u64`.
pub open spec fn window_height(base: u32, unit: u32, count: nat) -> u64 {
    let h = base + unit * count;
    if h > u64::MAX {
        u64::MAX
    } else {
        h as u64
    }
}

/// A selection brought back into a list of `len` rows: an index past the
/// end becomes the last row, or none when the list is empty.
pub open spec fn clamp_selection(sel: Option<usize>, len: nat) -> Option<usize> {
    match sel {
        Some(i) => if i < len {
            Some(i)
        } else if len > 0 {
            Some((len - 1) as usize)
        } else {
            None
        },
        None => None,
    }
}

impl LauncherState {
    /// The selection is a valid row, a live surface is the last one
    /// created, and the height matches the result list.
    pub open spec fn wf(self) -> bool {
        &&& (self.selection matches Some(i) ==> i < self.items.len())
        &&& (self.surface matches Some(id) ==> id == self.id_ctr)
        &&& self.height == window_height(self.base_height, self.item_height, self.items.len())
    }
}

/// The effects of issuing request `r` in session state `s`.
pub open spec fn request_effects(s: Session, r: RequestModel) -> Seq<EffectModel> {
    match s {
        Session::Live => seq![EffectModel::Send(r)],
        Session::Pending => seq![],
        Session::Lost => seq![EffectModel::Dropped(r)],
    }
}

/// The empty search.
pub open spec fn empty_search() -> RequestModel {
    RequestModel::Search(Seq::empty())
}

/// Hide: a visible launcher destroys its surface.
pub open spec fn hide_step(s: LauncherState) -> (LauncherState, Seq<EffectModel>) {
    match s.surface {
        Some(id) => (LauncherState { surface: None, ..s }, seq![EffectModel::DestroySurface(id)]),
        None => (s, seq![]),
    }
}

/// Toggle: hide a visible launcher; show a hidden one on a new surface
/// with an empty query, issuing an empty search. Once every surface id has
/// been handed out, a hidden launcher stays hidden.
pub open spec fn toggle_step(s: LauncherState) -> (LauncherState, Seq<EffectModel>) {
    match s.surface {
        Some(_) => hide_step(s),
        None => if s.id_ctr == u64::MAX {
            (s, seq![])
        } else {
            let id = (s.id_ctr + 1) as u64;
            (
                LauncherState { id_ctr: id, query: Seq::empty(), surface: Some(id), ..s },
                request_effects(s.session, empty_search()) + seq![
                    EffectModel::FocusInput,
                    EffectModel::CreateSurface { id, height: s.height },
                ],
            )
        },
    }
}

/// The query changed: while visible, take it, drop the selection, search.
pub open spec fn input_step(s: LauncherState, q: Seq<char>) -> (LauncherState, Seq<EffectModel>) {
    if s.surface.is_some() {
        (
            LauncherState { query: q, selection: None, ..s },
            request_effects(s.session, RequestModel::Search(q)),
        )
    } else {
        (s, seq![])
    }
}

/// The row that an activation without an index refers to.
pub open spec fn activation_index(s: LauncherState, i: Option<usize>) -> usize {
    match i {
        Some(i) => i,
        None => match s.selection {
            Some(j) => j,
            None => 0,
        },
    }
}

/// Activate: while visible, activate the row if it exists.
pub open spec fn activate_step(s: LauncherState, i: Option<usize>) -> (LauncherState, Seq<EffectModel>) {
    let k = activation_index(s, i);
    if s.surface.is_some() && k < s.items.len() {
        (s, request_effects(s.session, RequestModel::Activate(s.items[k as int].id)))
    } else {
        (s, seq![])
    }
}

/// Select: take a valid row or none; ignore a row past the end.
pub open spec fn select_step(s: LauncherState, i: Option<usize>) -> (LauncherState, Seq<EffectModel>) {
    match i {
        Some(k) => if k < s.items.len() {
            (LauncherState { selection: Some(k), ..s }, seq![])
        } else {
            (s, seq![])
        },
        None => (LauncherState { selection: None, ..s }, seq![]),
    }
}

/// Clear: while visible, empty the query and the results, resize, search.
pub open spec fn clear_step(s: LauncherState) -> (LauncherState, Seq<EffectModel>) {
    match s.surface {
        Some(id) => {
            let h = window_height(s.base_height, s.item_height, 0);
            (
                LauncherState { query: Seq::empty(), items: Seq::empty(), selection: None, height: h, ..s },
                seq![EffectModel::Resize { id, height: h }] + request_effects(s.session, empty_search()),
            )
        },
        None => (s, seq![]),
    }
}

/// A new result list: replace the results, clamp the selection, recompute
/// the height and resize a visible surface. Lists are applied in the order
/// they arrive: the backend's responses carry no tag of the query they
/// answer, so a late answer to an earlier query replaces a later one.
pub open spec fn update_step(s: LauncherState, list: Seq<ResultItem>) -> (LauncherState, Seq<EffectModel>) {
    let h = window_height(s.base_height, s.item_height, list.len());
    let t = LauncherState {
        items: list,
        selection: clamp_selection(s.selection, list.len()),
        height: h,
        ..s
    };
    match s.surface {
        Some(id) => (t, seq![EffectModel::Resize { id, height: h }]),
        None => (t, seq![]),
    }
}

/// The session failed: no more requests are sent; the error is reported.
pub open spec fn failed_step(s: LauncherState, msg: Seq<char>) -> (LauncherState, Seq<EffectModel>) {
    (LauncherState { session: Session::Lost, ..s }, seq![EffectModel::Error(msg)])
}

/// A response of the backend.
pub open spec fn response_step(s: LauncherState, r: LauncherResponse) -> (LauncherState, Seq<EffectModel>) {
    match r {
        LauncherResponse::Close => (s, seq![EffectModel::Exit]),
        LauncherResponse::Context { .. } => (s, seq![]),
        LauncherResponse::DesktopEntry { path, .. } => (s, seq![EffectModel::ReadDesktopEntry(path@)]),
        LauncherResponse::Update(list) => update_step(s, list@),
        LauncherResponse::Fill(t) => (LauncherState { query: t@, ..s }, seq![]),
    }
}

/// An event of the backend session driver.
pub open spec fn event_step(s: LauncherState, e: LauncherEvent) -> (LauncherState, Seq<EffectModel>) {
    match e {
        LauncherEvent::Started => (
            LauncherState { session: Session::Live, ..s },
            seq![EffectModel::Send(empty_search())],
        ),
        LauncherEvent::Response(r) => response_step(s, r),
        LauncherEvent::Error(msg) => failed_step(s, msg@),
    }
}

/// A request was sent: a sent activation hides the launcher.
pub open spec fn sent_step(s: LauncherState, r: RequestModel) -> (LauncherState, Seq<EffectModel>) {
    match r {
        RequestModel::Activate(_) => hide_step(s),
        RequestModel::Search(_) => (s, seq![]),
    }
}

/// A surface notification; one about another surface than the live one
/// is ignored.
pub open spec fn layer_step(s: LauncherState, e: LayerEvent) -> (LauncherState, Seq<EffectModel>) {
    match e {
        LayerEvent::Focused(id) => if s.surface == Some(id) {
            (s, seq![EffectModel::FocusInput])
        } else {
            (s, seq![])
        },
        LayerEvent::Unfocused(id) => if s.surface == Some(id) {
            hide_step(s)
        } else {
            (s, seq![])
        },
        LayerEvent::Other => (s, seq![]),
    }
}

/// The live surface was closed from outside: hide, empty the query and
/// search again so that the next show starts clean.
pub open spec fn closed_step(s: LauncherState, id: u64) -> (LauncherState, Seq<EffectModel>) {
    if s.surface == Some(id) {
        (
            LauncherState { surface: None, query: Seq::empty(), ..s },
            request_effects(s.session, empty_search()),
        )
    } else {
        (s, seq![])
    }
}

/// A desktop entry file was read: start its command and hide.
pub open spec fn entry_loaded_step(s: LauncherState, path: Seq<char>, contents: Option<Seq<char>>) -> (LauncherState, Seq<EffectModel>) {
    match contents {
        None => (s, seq![EffectModel::Warn(Warning::UnreadableEntry)]),
        Some(c) => match entry_command(path, c) {
            Some(cmd) => {
                let (t, e) = hide_step(s);
                (t, seq![EffectModel::Spawn(cmd)] + e)
            },
            None => (s, seq![EffectModel::Warn(Warning::NoCommand)]),
        },
    }
}

/// The view of an optional string.
pub open spec fn opt_view(o: Option<String>) -> Option<Seq<char>> {
    match o {
        Some(s) => Some(s@),
        None => None,
    }
}

/// The transition table: the next state and the effects of one message.
pub open spec fn step(s: LauncherState, m: Message) -> (LauncherState, Seq<EffectModel>) {
    match m {
        Message::InputChanged(q) => input_step(s, q@),
        Message::Activate(i) => activate_step(s, i),
        Message::Hide => hide_step(s),
        Message::Select(i) => select_step(s, i),
        Message::Clear => clear_step(s),
        Message::LauncherEvent(e) => event_step(s, e),
        Message::SentRequest(r) => sent_step(s, r@),
        Message::Error(msg) => failed_step(s, msg@),
        Message::Layer(e) => layer_step(s, e),
        Message::Toggle => toggle_step(s),
        Message::Closed(id) => closed_step(s, id),
        Message::DesktopEntryLoaded { path, contents } => entry_loaded_step(s, path@, opt_view(contents)),
    }
}

/// `base + unit * count`, saturated at the largest `u64`: the height of
/// the launcher window for a list of `count` results.
pub fn window_height_for(base: u32, unit: u32, count: usize) -> (h: u64)
    ensures
        h == window_height(base, unit, count as nat),
{
    let b = base as u128;
    let u = unit as u128;
    let c = count as u128;
    assert(u * c <= 0xffff_ffff * 0xffff_ffff_ffff_ffff) by (nonlinear_arith)
        requires
            u <= 0xffff_ffff,
            c <= 0xffff_ffff_ffff_ffff,
    ;
    let wide: u128 = b + u * c;
    if wide > u64::MAX as u128 {
        u64::MAX
    } else {
        wide as u64
    }
}

/// The orchestrator: the single owner of the query, the result list, the
/// selection and the launcher surface.
#[derive(Debug, Clone)]
pub struct IcedLauncher {
    id_ctr: u64,
    session: Session,
    input_value: String,
    launcher_items: Vec<ResultItem>,
    selected_item: Option<usize>,
    active_surface: Option<u64>,
    base_height: u32,
    item_height: u32,
    height: u64,
}

impl View for IcedLauncher {
    type V = LauncherState;

    closed spec fn view(&self) -> LauncherState {
        LauncherState {
            id_ctr: self.id_ctr,
            session: self.session,
            query: self.input_value@,
            items: self.launcher_items@,
            selection: self.selected_item,
            surface: self.active_surface,
            base_height: self.base_height,
            item_height: self.item_height,
            height: self.height,
        }
    }
}

impl IcedLauncher {
    /// The state of the orchestrator holds its invariant.
    pub open spec fn wf(&self) -> bool {
        self@.wf()
    }

    /// A hidden launcher with no session, no query and no results, whose
    /// window is `base_height` high plus `item_height` per result.
    pub fn new(base_height: u32, item_height: u32) -> (r: Self)
        ensures
            r.wf(),
            r@ == (LauncherState {
                id_ctr: 0,
                session: Session::Pending,
                query: Seq::empty(),
                items: Seq::empty(),
                selection: None,
                surface: None,
                base_height,
                item_height,
                height: window_height(base_height, item_height, 0),
            }),
    {
        let r = IcedLauncher {
            id_ctr: 0,
            session: Session::Pending,
            input_value: String::new(),
            launcher_items: Vec::new(),
            selected_item: None,
            active_surface: None,
            base_height,
            item_height,
            height: window_height_for(base_height, item_height, 0),
        };
        assert(r.launcher_items@ =~= Seq::empty());
        r
    }

    /// The current query.
    pub fn query(&self) -> (r: &str)
        ensures
            r@ == self@.query,
    {
        self.input_value.as_str()
    }

    /// The current result list.
    pub fn items(&self) -> (r: &Vec<ResultItem>)
        ensures
            r@ == self@.items,
    {
        &self.launcher_items
    }

    /// The highlighted row, if any.
    pub fn selection(&self) -> (r: Option<usize>)
        ensures
            r == self@.selection,
    {
        self.selected_item
    }

    /// The live surface, if the launcher is visible.
    pub fn surface(&self) -> (r: Option<u64>)
        ensures
            r == self@.surface,
    {
        self.active_surface
    }

    /// The window height for the current result list.
    pub fn height(&self) -> (r: u64)
        ensures
            r == self@.height,
    {
        self.height
    }

    /// Where the backend session stands.
    pub fn session(&self) -> (r: Session)
        ensures
            r == self@.session,
    {
        self.session
    }

    /// The effects of issuing `r` in the current session state.
    fn request(&self, r: LauncherRequest) -> (e: Vec<Effect>)
        ensures
            effects_view(e@) == request_effects(self@.session, r@),
    {
        let e = match self.session {
            Session::Live => vec![Effect::Send(r)],
            Session::Pending => Vec::new(),
            Session::Lost => vec![Effect::Dropped(r)],
        };
        assert(effects_view(e@) =~= request_effects(self@.session, r@));
        e
    }

    fn empty_search(&self) -> (e: Vec<Effect>)
        ensures
            effects_view(e@) == request_effects(self@.session, empty_search()),
    {
        let q = String::new();
        assert(q@ =~= Seq::<char>::empty());
        self.request(LauncherRequest::Search(q))
    }

    fn on_hide(&mut self) -> (e: Vec<Effect>)
        requires
            old(self).wf(),
        ensures
            final(self).wf(),
            (final(self)@, effects_view(e@)) == hide_step(old(self)@),
    {
        match self.active_surface {
            Some(id) => {
                self.active_surface = None;
                let e = vec![Effect::DestroySurface(id)];
                assert(effects_view(e@) =~= seq![EffectModel::DestroySurface(id)]);
                e
            },
            None => {
                let e: Vec<Effect> = Vec::new();
                assert(effects_view(e@) =~= seq![]);
                e
            },
        }
    }

    fn on_toggle(&mut self) -> (e: Vec<Effect>)
        requires
            old(self).wf(),
        ensures
            final(self).wf(),
            (final(self)@, effects_view(e@)) == toggle_step(old(self)@),
    {
        if self.active_surface.is_some() {
            return self.on_hide();
        }
        if self.id_ctr == u64::MAX {
            let e: Vec<Effect> = Vec::new();
            assert(effects_view(e@) =~= seq![]);
            return e;
        }
        let ghost before = self@;
        self.id_ctr = self.id_ctr + 1;
        let id = self.id_ctr;
        let mut e = self.empty_search();
        let ghost searched = e@;
        e.push(Effect::FocusInput);
        e.push(Effect::CreateSurface { id, height: self.height });
        self.input_value = String::new();
        self.active_surface = Some(id);
        assert(effects_view(e@) =~= request_effects(before.session, empty_search()) + seq![
            EffectModel::FocusInput,
            EffectModel::CreateSurface { id, height: before.height },
        ]) by {
            assert(e@ == searched.push(Effect::FocusInput).push(Effect::CreateSurface { id, height: before.height }));
        }
        assert(self@.query =~= Seq::<char>::empty());
        e
    }

    fn on_input(&mut self, value: String) -> (e: Vec<Effect>)
        requires
            old(self).wf(),
        ensures
            final(self).wf(),
            (final(self)@, effects_view(e@)) == input_step(old(self)@, value@),
    {
        if self.active_surface.is_none() {
            let e: Vec<Effect> = Vec::new();
            assert(effects_view(e@) =~= seq![]);
            return e;
        }
        let search = value.clone();
        self.input_value = value;
        self.selected_item = None;
        self.request(LauncherRequest::Search(search))
    }

    fn on_activate(&mut self, i: Option<usize>) -> (e: Vec<Effect>)
        requires
            old(self).wf(),
        ensures
            final(self).wf(),
            (final(self)@, effects_view(e@)) == activate_step(old(self)@, i),
    {
        let k = match i {
            Some(i) => i,
            None => match self.selected_item {
                Some(j) => j,
                None => 0,
            },
        };
        if self.active_surface.is_some() && k < self.launcher_items.len() {
            let id = self.launcher_items[k].id;
            self.request(LauncherRequest::Activate(id))
        } else {
            let e: Vec<Effect> = Vec::new();
            assert(effects_view(e@) =~= seq![]);
            e
        }
    }

    fn on_select(&mut self, i: Option<usize>) -> (e: Vec<Effect>)
        requires
            old(self).wf(),
        ensures
            final(self).wf(),
            (final(self)@, effects_view(e@)) == select_step(old(self)@, i),
    {
        match i {
            Some(k) => {
                if k < self.launcher_items.len() {
                    self.selected_item = Some(k);
                }
            },
            None => {
                self.selected_item = None;
            },
        }
        let e: Vec<Effect> = Vec::new();
        assert(effects_view(e@) =~= seq![]);
        e
    }

    fn on_clear(&mut self) -> (e: Vec<Effect>)
        requires
            old(self).wf(),
        ensures
            final(self).wf(),
            (final(self)@, effects_view(e@)) == clear_step(old(self)@),
    {
        match self.active_surface {
            Some(id) => {
                self.input_value = String::new();
                self.launcher_items = Vec::new();
                self.selected_item = None;
                self.height = window_height_for(self.base_height, self.item_height, 0);
                let mut e = vec![Effect::Resize { id, height: self.height }];
                let mut search = self.empty_search();
                let ghost first = e@;
                let ghost rest = search@;
                e.append(&mut search);
                assert(effects_view(e@) =~= effects_view(first) + effects_view(rest));
                assert(self@.query =~= Seq::<char>::empty());
                assert(self@.items =~= Seq::<ResultItem>::empty());
                e
            },
            None => {
                let e: Vec<Effect> = Vec::new();
                assert(effects_view(e@) =~= seq![]);
                e
            },
        }
    }

    fn on_update(&mut self, list: Vec<ResultItem>) -> (e: Vec<Effect>)
        requires
            old(self).wf(),
        ensures
            final(self).wf(),
            (final(self)@, effects_view(e@)) == update_step(old(self)@, list@),
    {
        let len = list.len();
        self.selected_item = match self.selected_item {
            Some(i) => if i < len {
                Some(i)
            } else if len > 0 {
                Some(len - 1)
            } else {
                None
            },
            None => None,
        };
        self.launcher_items = list;
        self.height = window_height_for(self.base_height, self.item_height, len);
        match self.active_surface {
            Some(id) => {
                let e = vec![Effect::Resize { id, height: self.height }];
                assert(effects_view(e@) =~= seq![EffectModel::Resize { id, height: self@.height }]);
                e
            },
            None => {
                let e: Vec<Effect> = Vec::new();
                assert(effects_view(e@) =~= seq![]);
                e
            },
        }
    }

    fn on_failed(&mut self, msg: String) -> (e: Vec<Effect>)
        requires
            old(self).wf(),
        ensures
            final(self).wf(),
            (final(self)@, effects_view(e@)) == failed_step(old(self)@, msg@),
    {
        self.session = Session::Lost;
        let ghost m = msg@;
        let e = vec![Effect::Error(msg)];
        assert(effects_view(e@) =~= seq![EffectModel::Error(m)]);
        e
    }

    fn on_response(&mut self, r: LauncherResponse) -> (e: Vec<Effect>)
        requires
            old(self).wf(),
        ensures
            final(self).wf(),
            (final(self)@, effects_view(e@)) == response_step(old(self)@, r),
    {
        match r {
            LauncherResponse::Close => {
                let e = vec![Effect::Exit];
                assert(effects_view(e@) =~= seq![EffectModel::Exit]);
                e
            },
            LauncherResponse::Context { .. } => {
                let e: Vec<Effect> = Vec::new();
                assert(effects_view(e@) =~= seq![]);
                e
            },
            LauncherResponse::DesktopEntry { path, .. } => {
                let ghost p = path@;
                let e = vec![Effect::ReadDesktopEntry(path)];
                assert(effects_view(e@) =~= seq![EffectModel::ReadDesktopEntry(p)]);
                e
            },
            LauncherResponse::Update(list) => self.on_update(list),
            LauncherResponse::Fill(t) => {
                self.input_value = t;
                let e: Vec<Effect> = Vec::new();
                assert(effects_view(e@) =~= seq![]);
                e
            },
        }
    }

    fn on_event(&mut self, ev: LauncherEvent) -> (e: Vec<Effect>)
        requires
            old(self).wf(),
        ensures
            final(self).wf(),
            (final(self)@, effects_view(e@)) == event_step(old(self)@, ev),
    {
        match ev {
            LauncherEvent::Started => {
                self.session = Session::Live;
                self.empty_search()
            },
            LauncherEvent::Response(r) => self.on_response(r),
            LauncherEvent::Error(msg) => self.on_failed(msg),
        }
    }

    fn on_layer(&mut self, ev: LayerEvent) -> (e: Vec<Effect>)
        requires
            old(self).wf(),
        ensures
            final(self).wf(),
            (final(self)@, effects_view(e@)) == layer_step(old(self)@, ev),
    {
        match ev {
            LayerEvent::Focused(id) => {
                if self.active_surface == Some(id) {
                    let e = vec![Effect::FocusInput];
                    assert(effects_view(e@) =~= seq![EffectModel::FocusInput]);
                    return e;
                }
            },
            LayerEvent::Unfocused(id) => {
                if self.active_surface == Some(id) {
                    return self.on_hide();
                }
            },
            LayerEvent::Other => {},
        }
        let e: Vec<Effect> = Vec::new();
        assert(effects_view(e@) =~= seq![]);
        e
    }

    fn on_closed(&mut self, id: u64) -> (e: Vec<Effect>)
        requires
            old(self).wf(),
        ensures
            final(self).wf(),
            (final(self)@, effects_view(e@)) == closed_step(old(self)@, id),
    {
        if self.active_surface == Some(id) {
            let e = self.empty_search();
            self.active_surface = None;
            self.input_value = String::new();
            assert(self@.query =~= Seq::<char>::empty());
            e
        } else {
            let e: Vec<Effect> = Vec::new();
            assert(effects_view(e@) =~= seq![]);
            e
        }
    }

    fn on_entry_loaded(&mut self, path: String, contents: Option<String>) -> (e: Vec<Effect>)
        requires
            old(self).wf(),
        ensures
            final(self).wf(),
            (final(self)@, effects_view(e@)) == entry_loaded_step(old(self)@, path@, opt_view(contents)),
    {
        match contents {
            None => {
                let e = vec![Effect::Warn(Warning::UnreadableEntry)];
                assert(effects_view(e@) =~= seq![EffectModel::Warn(Warning::UnreadableEntry)]);
                e
            },
            Some(c) => match command_line(path.as_str(), c.as_str()) {
                Some(cmd) => {
                    let ghost cm = cmd@;
                    let mut e = vec![Effect::Spawn(cmd)];
                    let ghost first = e@;
                    let mut hidden = self.on_hide();
                    let ghost rest = hidden@;
                    e.append(&mut hidden);
                    assert(effects_view(first) =~= seq![EffectModel::Spawn(cm)]);
                    assert(effects_view(e@) =~= effects_view(first) + effects_view(rest));
                    e
                },
                None => {
                    let e = vec![Effect::Warn(Warning::NoCommand)];
                    assert(effects_view(e@) =~= seq![EffectModel::Warn(Warning::NoCommand)]);
                    e
                },
            },
        }
    }

    /// Applies one message: the state moves as the transition table
    /// [`step`] says, and the effects it lists are returned, in order, for
    /// the surrounding program to perform.
    pub fn update(&mut self, message: Message) -> (e: Vec<Effect>)
        requires
            old(self).wf(),
        ensures
            final(self).wf(),
            final(self)@ == step(old(self)@, message).0,
            effects_view(e@) == step(old(self)@, message).1,
    {
        match message {
            Message::InputChanged(value) => self.on_input(value),
            Message::Activate(i) => self.on_activate(i),
            Message::Hide => self.on_hide(),
            Message::Select(i) => self.on_select(i),
            Message::Clear => self.on_clear(),
            Message::LauncherEvent(ev) => self.on_event(ev),
            Message::SentRequest(r) => match r {
                LauncherRequest::Activate(_) => self.on_hide(),
                LauncherRequest::Search(_) => {
                    let e: Vec<Effect> = Vec::new();
                    assert(effects_view(e@) =~= seq![]);
                    e
                },
            },
            Message::Error(msg) => self.on_failed(msg),
            Message::Layer(ev) => self.on_layer(ev),
            Message::Toggle => self.on_toggle(),
            Message::Closed(id) => self.on_closed(id),
            Message::DesktopEntryLoaded { path, contents } => self.on_entry_loaded(path, contents),
        }
    }
}

} // verus!
