//! Resolving a session named by the user: the sessions are listed page by
//! page, pass after pass, and in a local workspace each session of that name
//! must also have a valid rollout before it is taken. The listing and the
//! rollout checks are done by the caller; this module decides what to do next
//! after each of them.

use vstd::prelude::*;
use crate::text::{opt_view, str_equal, string_of};
use crate::session_archive::{SessionArchiveAction, SessionNameLookupMode, ThreadSortKey, lookup_modes, lookup_sort_key};

verus! {

/// Number of sessions asked for per listed page.
pub const LIST_PAGE_LIMIT: u32 = 100;

/// One listing pass: a collection, a way of listing it, and whether the
/// server is asked to search by name or to list everything.
#[derive(Clone, Copy, Debug, PartialEq, Eq, Structural)]
pub struct LookupPass {
    pub archived: bool,
    pub mode: SessionNameLookupMode,
    pub search_by_name: bool,
}

/// The passes over one collection: by name, then everything, for each
/// listing mode of the workspace.
pub open spec fn collection_passes(archived: bool, uses_remote_workspace: bool) -> Seq<LookupPass> {
    if uses_remote_workspace {
        seq![
            LookupPass { archived, mode: SessionNameLookupMode::ScanAndRepair, search_by_name: true },
            LookupPass { archived, mode: SessionNameLookupMode::ScanAndRepair, search_by_name: false },
        ]
    } else {
        seq![
            LookupPass { archived, mode: SessionNameLookupMode::StateDbOnly, search_by_name: true },
            LookupPass { archived, mode: SessionNameLookupMode::StateDbOnly, search_by_name: false },
            LookupPass { archived, mode: SessionNameLookupMode::ScanAndRepair, search_by_name: true },
            LookupPass { archived, mode: SessionNameLookupMode::ScanAndRepair, search_by_name: false },
        ]
    }
}

/// Two passes, by name and then everything, for each of `modes` in order.
pub open spec fn mode_passes(archived: bool, modes: Seq<SessionNameLookupMode>) -> Seq<LookupPass>
    decreases modes.len(),
{
    if modes.len() == 0 {
        Seq::empty()
    } else {
        mode_passes(archived, modes.drop_last()) + seq![
            LookupPass { archived, mode: modes.last(), search_by_name: true },
            LookupPass { archived, mode: modes.last(), search_by_name: false },
        ]
    }
}

/// All the passes of a lookup, in order: the active sessions before the
/// archived ones where the action searches both.
pub open spec fn lookup_passes(action: SessionArchiveAction, uses_remote_workspace: bool) -> Seq<LookupPass> {
    match action {
        SessionArchiveAction::Archive => collection_passes(false, uses_remote_workspace),
        SessionArchiveAction::Delete(_) => collection_passes(false, uses_remote_workspace)
            + collection_passes(true, uses_remote_workspace),
        SessionArchiveAction::Unarchive => collection_passes(true, uses_remote_workspace),
    }
}

/// A request for one page of sessions.
#[derive(Debug)]
pub struct ThreadListRequest {
    pub cursor: Option<String>,
    pub limit: u32,
    pub sort_key: ThreadSortKey,
    pub archived: bool,
    pub use_state_db_only: bool,
    pub search_term: Option<String>,
}

/// The content of a [`ThreadListRequest`].
pub struct ThreadListRequestView {
    pub cursor: Option<Seq<char>>,
    pub limit: u32,
    pub sort_key: ThreadSortKey,
    pub archived: bool,
    pub use_state_db_only: bool,
    pub search_term: Option<Seq<char>>,
}

impl View for ThreadListRequest {
    type V = ThreadListRequestView;

    open spec fn view(&self) -> ThreadListRequestView {
        ThreadListRequestView {
            cursor: opt_view(self.cursor),
            limit: self.limit,
            sort_key: self.sort_key,
            archived: self.archived,
            use_state_db_only: self.use_state_db_only,
            search_term: opt_view(self.search_term),
        }
    }
}

/// The page request of `pass` from `cursor`. Only the embedded server
/// reading its state database sorts by recency.
pub open spec fn list_request(
    pass: LookupPass,
    cursor: Option<Seq<char>>,
    name: Seq<char>,
    uses_embedded_app_server: bool,
) -> ThreadListRequestView {
    ThreadListRequestView {
        cursor,
        limit: LIST_PAGE_LIMIT,
        sort_key: if pass.mode == SessionNameLookupMode::StateDbOnly && uses_embedded_app_server {
            ThreadSortKey::RecencyAt
        } else {
            ThreadSortKey::UpdatedAt
        },
        archived: pass.archived,
        use_state_db_only: pass.mode == SessionNameLookupMode::StateDbOnly,
        search_term: if pass.search_by_name { Some(name) } else { None },
    }
}

/// What the caller is to do next.
#[derive(Debug)]
pub enum LookupStep {
    /// List a page and hand it to [`NameLookup::on_page`].
    List(ThreadListRequest),
    /// Check the rollout of the session at `index` of the last page, in the
    /// collection `archived`, and hand the outcome to [`NameLookup::on_rollout_checked`].
    CheckRollout { index: usize, archived: bool },
    /// The session at `index` of the last page is the one.
    Found { index: usize },
    /// No session of that name was found.
    NotFound,
}

/// The content of a [`LookupStep`].
pub enum LookupStepView {
    List(ThreadListRequestView),
    CheckRollout { index: int, archived: bool },
    Found { index: int },
    NotFound,
}

impl View for LookupStep {
    type V = LookupStepView;

    open spec fn view(&self) -> LookupStepView {
        match self {
            LookupStep::List(r) => LookupStepView::List(r@),
            LookupStep::CheckRollout { index, archived } => LookupStepView::CheckRollout { index: *index as int, archived: *archived },
            LookupStep::Found { index } => LookupStepView::Found { index: *index as int },
            LookupStep::NotFound => LookupStepView::NotFound,
        }
    }
}

/// What the lookup waits for.
#[derive(Clone, Copy, Debug, PartialEq, Eq, Structural)]
pub enum Awaiting {
    Page,
    Rollout,
    Done,
}

/// A lookup of a session by its exact name.
#[derive(Debug)]
pub struct NameLookup {
    name: String,
    uses_remote_workspace: bool,
    uses_embedded_app_server: bool,
    passes: Vec<LookupPass>,
    pass: usize,
    page_names: Vec<Option<String>>,
    candidates: Vec<usize>,
    candidate: usize,
    next_cursor: Option<String>,
    awaiting: Awaiting,
}

/// The content of a [`NameLookup`].
pub struct NameLookupView {
    pub name: Seq<char>,
    pub uses_remote_workspace: bool,
    pub uses_embedded_app_server: bool,
    /// The passes, in order, and the one under way.
    pub passes: Seq<LookupPass>,
    pub pass: int,
    /// The names of the sessions of the last page.
    pub page_names: Seq<Option<Seq<char>>>,
    /// Where, in the last page, the sessions of that name are, and which of
    /// them is being checked.
    pub candidates: Seq<int>,
    pub candidate: int,
    /// Where the pass goes on once the last page is done.
    pub next_cursor: Option<Seq<char>>,
    pub awaiting: Awaiting,
}

/// The character views of optional names.
pub open spec fn names_view(names: Seq<Option<String>>) -> Seq<Option<Seq<char>>> {
    Seq::new(names.len(), |i: int| opt_view(names[i]))
}

impl View for NameLookup {
    type V = NameLookupView;

    closed spec fn view(&self) -> NameLookupView {
        NameLookupView {
            name: self.name@,
            uses_remote_workspace: self.uses_remote_workspace,
            uses_embedded_app_server: self.uses_embedded_app_server,
            passes: self.passes@,
            pass: self.pass as int,
            page_names: names_view(self.page_names@),
            candidates: Seq::new(self.candidates@.len(), |i: int| self.candidates@[i] as int),
            candidate: self.candidate as int,
            next_cursor: opt_view(self.next_cursor),
            awaiting: self.awaiting,
        }
    }
}

/// The state of a lookup that has just asked for the first page of `pass`.
pub open spec fn fresh_pass(s: NameLookupView, pass: int) -> NameLookupView {
    NameLookupView { pass, page_names: Seq::empty(), candidates: Seq::empty(), candidate: 0, next_cursor: None, awaiting: Awaiting::Page, ..s }
}

/// A lookup's state and first request.
pub open spec fn lookup_start(
    action: SessionArchiveAction,
    name: Seq<char>,
    uses_remote_workspace: bool,
    uses_embedded_app_server: bool,
) -> (NameLookupView, LookupStepView) {
    let passes = lookup_passes(action, uses_remote_workspace);
    let s = NameLookupView {
        name,
        uses_remote_workspace,
        uses_embedded_app_server,
        passes,
        pass: 0,
        page_names: Seq::empty(),
        candidates: Seq::empty(),
        candidate: 0,
        next_cursor: None,
        awaiting: Awaiting::Page,
    };
    (s, LookupStepView::List(list_request(passes[0], None, name, uses_embedded_app_server)))
}


/// Where, in order, the sessions named `name` are among `names`.
pub open spec fn matching_indexes(names: Seq<Option<Seq<char>>>, name: Seq<char>) -> Seq<int>
    decreases names.len(),
{
    if names.len() == 0 {
        Seq::empty()
    } else if names.last() == Some(name) {
        matching_indexes(names.drop_last(), name).push(names.len() - 1)
    } else {
        matching_indexes(names.drop_last(), name)
    }
}

/// After a page with nothing to take: the pass goes on at `next_cursor`,
/// else the next pass starts, else the lookup ends without a session.
pub open spec fn advance(s: NameLookupView, next_cursor: Option<Seq<char>>) -> (NameLookupView, LookupStepView) {
    match next_cursor {
        Some(c) => (
            fresh_pass(s, s.pass),
            LookupStepView::List(list_request(s.passes[s.pass], Some(c), s.name, s.uses_embedded_app_server)),
        ),
        None => if s.pass + 1 < s.passes.len() {
            (
                fresh_pass(s, s.pass + 1),
                LookupStepView::List(list_request(s.passes[s.pass + 1], None, s.name, s.uses_embedded_app_server)),
            )
        } else {
            (NameLookupView { awaiting: Awaiting::Done, ..fresh_pass(s, s.pass) }, LookupStepView::NotFound)
        },
    }
}

/// A page arrived: its first session of that name is taken at once in a
/// remote workspace, and has its rollout checked first in a local one.
pub open spec fn page_step(
    s: NameLookupView,
    names: Seq<Option<Seq<char>>>,
    next_cursor: Option<Seq<char>>,
) -> (NameLookupView, LookupStepView) {
    let c = matching_indexes(names, s.name);
    let t = NameLookupView { page_names: names, candidates: c, candidate: 0, next_cursor, ..s };
    if c.len() == 0 {
        advance(s, next_cursor)
    } else if s.uses_remote_workspace {
        (NameLookupView { awaiting: Awaiting::Done, ..t }, LookupStepView::Found { index: c[0] })
    } else {
        (
            NameLookupView { awaiting: Awaiting::Rollout, ..t },
            LookupStepView::CheckRollout { index: c[0], archived: s.passes[s.pass].archived },
        )
    }
}

/// A rollout was checked: a valid one is taken, else the next session of
/// that name on the page is checked, else the pass goes on.
pub open spec fn rollout_step(s: NameLookupView, valid: bool) -> (NameLookupView, LookupStepView) {
    if valid {
        (NameLookupView { awaiting: Awaiting::Done, ..s }, LookupStepView::Found { index: s.candidates[s.candidate] })
    } else if s.candidate + 1 < s.candidates.len() {
        (
            NameLookupView { candidate: s.candidate + 1, ..s },
            LookupStepView::CheckRollout { index: s.candidates[s.candidate + 1], archived: s.passes[s.pass].archived },
        )
    } else {
        advance(s, s.next_cursor)
    }
}

proof fn lemma_matching_indexes(names: Seq<Option<Seq<char>>>, name: Seq<char>)
    ensures
        forall|i: int| 0 <= i < matching_indexes(names, name).len() ==>
            0 <= #[trigger] matching_indexes(names, name)[i] < names.len()
            && names[matching_indexes(names, name)[i]] == Some(name),
        forall|i: int, j: int| 0 <= i < j < matching_indexes(names, name).len() ==>
            #[trigger] matching_indexes(names, name)[i] < #[trigger] matching_indexes(names, name)[j],
        forall|k: int| 0 <= k < names.len() && names[k] == Some(name) ==>
            #[trigger] matching_indexes(names, name).contains(k),
    decreases names.len(),
{
    if names.len() > 0 {
        lemma_matching_indexes(names.drop_last(), name);
        let r = matching_indexes(names.drop_last(), name);
        assert forall|k: int| 0 <= k < names.len() && names[k] == Some(name) implies
            #[trigger] matching_indexes(names, name).contains(k) by {
            if k < names.len() - 1 {
                assert(names.drop_last()[k] == names[k]);
                assert(r.contains(k));
                let w = choose|w: int| 0 <= w < r.len() && r[w] == k;
                assert(matching_indexes(names, name)[w] == k);
            } else {
                assert(matching_indexes(names, name).last() == k);
            }
        }
    }
}


/// The invariant of a lookup: a pass under way, and the candidates are
/// exactly the sessions of that name on the last page.
pub open spec fn lookup_inv(s: NameLookupView) -> bool {
    &&& 0 <= s.pass < s.passes.len()
    &&& s.awaiting == Awaiting::Rollout ==> 0 <= s.candidate < s.candidates.len()
    &&& s.candidates == matching_indexes(s.page_names, s.name)
}

/// A session is taken, or has its rollout checked, only when it is on the
/// last page and has exactly the name looked up.
pub proof fn lemma_taken_sessions_have_the_name(
    s: NameLookupView,
    names: Seq<Option<Seq<char>>>,
    next_cursor: Option<Seq<char>>,
    valid: bool,
)
    requires
        lookup_inv(s),
    ensures
        page_step(s, names, next_cursor).1 matches LookupStepView::Found { index }
            ==> 0 <= index < names.len() && names[index] == Some(s.name),
        page_step(s, names, next_cursor).1 matches LookupStepView::CheckRollout { index, .. }
            ==> 0 <= index < names.len() && names[index] == Some(s.name),
        s.awaiting == Awaiting::Rollout ==> (rollout_step(s, valid).1 matches LookupStepView::Found { index }
            ==> 0 <= index < s.page_names.len() && s.page_names[index] == Some(s.name)),
        s.awaiting == Awaiting::Rollout ==> (rollout_step(s, valid).1 matches LookupStepView::CheckRollout { index, .. }
            ==> 0 <= index < s.page_names.len() && s.page_names[index] == Some(s.name)),
{
    lemma_matching_indexes(names, s.name);
    lemma_matching_indexes(s.page_names, s.name);
    if matching_indexes(names, s.name).len() > 0 {
        assert(0 <= matching_indexes(names, s.name)[0] < names.len());
    }
    if s.awaiting == Awaiting::Rollout {
        assert(0 <= s.candidates[s.candidate] < s.page_names.len());
        if s.candidate + 1 < s.candidates.len() {
            assert(0 <= s.candidates[s.candidate + 1] < s.page_names.len());
        }
    }
}

/// In a local workspace a session is taken only once its rollout was found
/// valid, and a valid one is taken at once; in a remote workspace no rollout
/// is checked.
pub proof fn lemma_local_sessions_need_a_valid_rollout(
    s: NameLookupView,
    names: Seq<Option<Seq<char>>>,
    next_cursor: Option<Seq<char>>,
)
    requires
        lookup_inv(s),
    ensures
        !s.uses_remote_workspace ==> !(page_step(s, names, next_cursor).1 is Found),
        s.uses_remote_workspace ==> !(page_step(s, names, next_cursor).1 is CheckRollout),
        !(rollout_step(s, false).1 is Found),
        s.awaiting == Awaiting::Rollout ==> rollout_step(s, true).1 is Found,
{
}

/// The lookup gives up only after the last page of its last pass, and a pass
/// is left only after its last page.
pub proof fn lemma_not_found_only_after_every_pass(
    s: NameLookupView,
    names: Seq<Option<Seq<char>>>,
    next_cursor: Option<Seq<char>>,
    valid: bool,
)
    requires
        lookup_inv(s),
    ensures
        page_step(s, names, next_cursor).1 is NotFound ==> next_cursor is None && s.pass == s.passes.len() - 1
            && matching_indexes(names, s.name).len() == 0,
        s.awaiting == Awaiting::Rollout ==> (rollout_step(s, valid).1 is NotFound ==> !valid
            && s.next_cursor is None && s.pass == s.passes.len() - 1
            && s.candidate == s.candidates.len() - 1),
        next_cursor is Some ==> page_step(s, names, next_cursor).0.pass == s.pass,
        page_step(s, names, next_cursor).0.pass == s.pass || (next_cursor is None
            && page_step(s, names, next_cursor).0.pass == s.pass + 1),
{
}


/// What a lookup awaits after it asked for `step`.
pub open spec fn awaited_after(step: LookupStepView) -> Awaiting {
    match step {
        LookupStepView::List(_) => Awaiting::Page,
        LookupStepView::CheckRollout { .. } => Awaiting::Rollout,
        LookupStepView::Found { .. } | LookupStepView::NotFound => Awaiting::Done,
    }
}

/// Every step says what comes next: after a page request the lookup awaits
/// that page, after a rollout check its outcome, and after a result nothing.
/// A caller that answers each step as it says meets the lookup's demands.
pub proof fn lemma_steps_tell_what_is_awaited(
    s: NameLookupView,
    names: Seq<Option<Seq<char>>>,
    next_cursor: Option<Seq<char>>,
    valid: bool,
    action: SessionArchiveAction,
    name: Seq<char>,
    uses_remote_workspace: bool,
    uses_embedded_app_server: bool,
)
    requires
        lookup_inv(s),
    ensures
        lookup_start(action, name, uses_remote_workspace, uses_embedded_app_server).0.awaiting
            == awaited_after(lookup_start(action, name, uses_remote_workspace, uses_embedded_app_server).1),
        page_step(s, names, next_cursor).0.awaiting == awaited_after(page_step(s, names, next_cursor).1),
        s.awaiting == Awaiting::Rollout
            ==> rollout_step(s, valid).0.awaiting == awaited_after(rollout_step(s, valid).1),
{
}


/// A valid rollout takes exactly the session whose rollout was just asked
/// about: whether the check was asked for by a page or after another
/// session's rollout proved invalid, answering it with `valid` gives that
/// same session, and answering it with `invalid` never takes it.
pub proof fn lemma_valid_rollout_takes_the_checked_session(
    s: NameLookupView,
    names: Seq<Option<Seq<char>>>,
    next_cursor: Option<Seq<char>>,
)
    requires
        lookup_inv(s),
    ensures
        page_step(s, names, next_cursor).1 matches LookupStepView::CheckRollout { index, .. }
            ==> rollout_step(page_step(s, names, next_cursor).0, true).1 == (LookupStepView::Found { index }),
        s.awaiting == Awaiting::Rollout ==> (rollout_step(s, false).1 matches LookupStepView::CheckRollout { index, .. }
            ==> rollout_step(rollout_step(s, false).0, true).1 == (LookupStepView::Found { index })),
        s.awaiting == Awaiting::Rollout ==> (rollout_step(s, false).1 matches LookupStepView::CheckRollout { index, .. }
            ==> index != s.candidates[s.candidate]),
{
    lemma_matching_indexes(s.page_names, s.name);
    if s.awaiting == Awaiting::Rollout && s.candidate + 1 < s.candidates.len() {
        assert(s.candidates[s.candidate] < s.candidates[s.candidate + 1]);
    }
}

impl NameLookup {
    /// The invariant of a lookup.
    pub closed spec fn well_formed(&self) -> bool {
        lookup_inv(self@)
    }

    fn collection_passes(passes: &mut Vec<LookupPass>, archived: bool, uses_remote_workspace: bool)
        ensures
            final(passes)@ == old(passes)@ + collection_passes(archived, uses_remote_workspace),
    {
        let ghost before = passes@;
        let modes = lookup_modes(uses_remote_workspace);
        let mut i: usize = 0;
        while i < modes.len()
            invariant
                i <= modes@.len(),
                passes@ == before + mode_passes(archived, modes@.take(i as int)),
            decreases modes@.len() - i,
        {
            let mode = modes[i];
            passes.push(LookupPass { archived, mode, search_by_name: true });
            passes.push(LookupPass { archived, mode, search_by_name: false });
            proof {
                let t = modes@.take(i + 1);
                assert(t.drop_last() =~= modes@.take(i as int));
                assert(passes@ =~= before + mode_passes(archived, t));
            }
            i = i + 1;
        }
        proof {
            assert(modes@.take(modes@.len() as int) =~= modes@);
            let ms = modes@;
            reveal_with_fuel(mode_passes, 3);
            if uses_remote_workspace {
                assert(ms.drop_last() =~= Seq::<SessionNameLookupMode>::empty());
            } else {
                assert(ms.drop_last() =~= seq![SessionNameLookupMode::StateDbOnly]);
                assert(ms.drop_last().drop_last() =~= Seq::<SessionNameLookupMode>::empty());
            }
            assert(mode_passes(archived, ms) =~= collection_passes(archived, uses_remote_workspace));
        }
    }

    fn request(&self, pass: usize, cursor: Option<String>) -> (r: ThreadListRequest)
        requires
            pass < self.passes@.len(),
        ensures
            r@ == list_request(self.passes@[pass as int], opt_view(cursor), self.name@, self.uses_embedded_app_server),
    {
        let p = self.passes[pass];
        ThreadListRequest {
            cursor,
            limit: LIST_PAGE_LIMIT,
            sort_key: lookup_sort_key(p.mode, self.uses_embedded_app_server),
            archived: p.archived,
            use_state_db_only: p.mode == SessionNameLookupMode::StateDbOnly,
            search_term: if p.search_by_name { Some(self.name.clone()) } else { None },
        }
    }

    /// Starts looking up the session named `name` for `action`; returns the
    /// lookup and its first page request.
    pub fn start(
        action: SessionArchiveAction,
        name: &str,
        uses_remote_workspace: bool,
        uses_embedded_app_server: bool,
    ) -> (r: (NameLookup, LookupStep))
        ensures
            r.0.well_formed(),
            (r.0@, r.1@) == lookup_start(action, name@, uses_remote_workspace, uses_embedded_app_server),
    {
        let mut passes: Vec<LookupPass> = Vec::new();
        match action {
            SessionArchiveAction::Archive => Self::collection_passes(&mut passes, false, uses_remote_workspace),
            SessionArchiveAction::Delete(_) => {
                Self::collection_passes(&mut passes, false, uses_remote_workspace);
                Self::collection_passes(&mut passes, true, uses_remote_workspace);
            },
            SessionArchiveAction::Unarchive => Self::collection_passes(&mut passes, true, uses_remote_workspace),
        }
        assert(passes@ =~= lookup_passes(action, uses_remote_workspace));
        let lookup = NameLookup {
            name: string_of(name),
            uses_remote_workspace,
            uses_embedded_app_server,
            passes,
            pass: 0,
            page_names: Vec::new(),
            candidates: Vec::new(),
            candidate: 0,
            next_cursor: None,
            awaiting: Awaiting::Page,
        };
        let first = lookup.request(0, None);
        proof {
            assert(lookup@.page_names =~= Seq::<Option<Seq<char>>>::empty());
            assert(lookup@.candidates =~= Seq::<int>::empty());
        }
        (lookup, LookupStep::List(first))
    }

    fn advance(&mut self, next_cursor: Option<String>) -> (r: LookupStep)
        requires
            old(self).well_formed(),
        ensures
            final(self).well_formed(),
            (final(self)@, r@) == advance(old(self)@, opt_view(next_cursor)),
    {
        let ghost before = self@;
        self.page_names = Vec::new();
        self.candidates = Vec::new();
        self.candidate = 0;
        self.next_cursor = None;
        self.awaiting = Awaiting::Page;
        let r = match next_cursor {
            Some(c) => LookupStep::List(self.request(self.pass, Some(c))),
            None => if self.pass < self.passes.len() - 1 {
                self.pass = self.pass + 1;
                LookupStep::List(self.request(self.pass, None))
            } else {
                self.awaiting = Awaiting::Done;
                LookupStep::NotFound
            },
        };
        proof {
            assert(self@.page_names =~= Seq::<Option<Seq<char>>>::empty());
            assert(self@.candidates =~= Seq::<int>::empty());
        }
        r
    }

    /// Takes the names of the sessions on the page that was asked for, in
    /// the order listed, and where the pass goes on (`None` after its last page).
    pub fn on_page(&mut self, page_names: Vec<Option<String>>, next_cursor: Option<String>) -> (r: LookupStep)
        requires
            old(self).well_formed(),
            old(self)@.awaiting == Awaiting::Page,
        ensures
            final(self).well_formed(),
            (final(self)@, r@) == page_step(old(self)@, names_view(page_names@), opt_view(next_cursor)),
    {
        let ghost names = names_view(page_names@);
        proof {
            lemma_matching_indexes(names, self.name@);
        }
        let mut candidates: Vec<usize> = Vec::new();
        let mut i: usize = 0;
        while i < page_names.len()
            invariant
                i <= page_names@.len(),
                names == names_view(page_names@),
                Seq::new(candidates@.len(), |k: int| candidates@[k] as int) == matching_indexes(names.take(i as int), self.name@),
                forall|k: int| 0 <= k < candidates@.len() ==> #[trigger] candidates@[k] < i,
            decreases page_names@.len() - i,
        {
            let ghost prev = candidates@;
            assert(names.take(i + 1).drop_last() =~= names.take(i as int));
            let named = match &page_names[i] {
                Some(n) => str_equal(n.as_str(), self.name.as_str()),
                None => false,
            };
            assert(named == (names.take(i + 1).last() == Some(self.name@)));
            if named {
                candidates.push(i);
                assert(Seq::new(candidates@.len(), |k: int| candidates@[k] as int)
                    =~= Seq::new(prev.len(), |k: int| prev[k] as int).push(i as int));
            }
            i = i + 1;
        }
        assert(names.take(page_names@.len() as int) =~= names);
        if candidates.len() == 0 {
            return self.advance(next_cursor);
        }
        let first = candidates[0];
        let archived = self.passes[self.pass].archived;
        self.page_names = page_names;
        self.candidates = candidates;
        self.candidate = 0;
        self.next_cursor = next_cursor;
        if self.uses_remote_workspace {
            self.awaiting = Awaiting::Done;
            LookupStep::Found { index: first }
        } else {
            self.awaiting = Awaiting::Rollout;
            LookupStep::CheckRollout { index: first, archived }
        }
    }

    /// Takes whether the rollout of the session last asked about is valid:
    /// it exists under the collection's directory and records that session.
    pub fn on_rollout_checked(&mut self, valid: bool) -> (r: LookupStep)
        requires
            old(self).well_formed(),
            old(self)@.awaiting == Awaiting::Rollout,
        ensures
            final(self).well_formed(),
            (final(self)@, r@) == rollout_step(old(self)@, valid),
    {
        let archived = self.passes[self.pass].archived;
        if valid {
            self.awaiting = Awaiting::Done;
            return LookupStep::Found { index: self.candidates[self.candidate] };
        }
        if self.candidate < self.candidates.len() - 1 {
            self.candidate = self.candidate + 1;
            return LookupStep::CheckRollout { index: self.candidates[self.candidate], archived };
        }
        let next_cursor = self.next_cursor.take();
        self.advance(next_cursor)
    }

}

/// The error for a session id that the app server returned and that does not parse.
pub open spec fn invalid_session_id_text(id: Seq<char>) -> Seq<char> {
    "app server returned invalid session id `"@ + id + "`"@
}

/// The error for a session id that the app server returned and that does not parse.
pub fn invalid_session_id_message(id: &str) -> (r: String)
    ensures
        r@ == invalid_session_id_text(id@),
{
    let mut m = string_of("app server returned invalid session id `");
    crate::text::append_str(&mut m, id);
    crate::text::append_str(&mut m, "`");
    m
}

} // verus!
