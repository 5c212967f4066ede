//! The context-swap protocol of the extended locale API.
//!
//! Changing the locale of one category, or of all of them, takes a short
//! conversation with the OS: ask for the thread's current context, build
//! a new context from it for the requested categories, install the new
//! context, and release the handles that the protocol owns. A
//! [`SwapSession`] makes every decision of that conversation: the caller
//! performs each [`Action`] it hands out and reports the outcome as an
//! [`Event`]. Handles are carried as integers, `0` standing for none.
use crate::category::{lemma_mapping_injective, lemma_mask_values, Category, LC_ALL_MASK};
use crate::locale::{lemma_name_round_trip, query_outcome, Locale, LocaleError, LocaleView};
use vstd::prelude::*;

verus! {

/// What the caller is to do next.
#[derive(PartialEq, Eq, Clone, Debug)]
pub enum Action {
    /// Obtain the thread's current context, without taking ownership.
    QueryCurrent,
    /// Construct a new context for the categories of `mask`, named `name`,
    /// taking every other category from `base`.
    Construct { mask: u32, name: String, base: u64 },
    /// Install `handle` as the thread's context.
    Install { handle: u64 },
    /// Release `handle`.
    Release { handle: u64 },
    /// The protocol is over; `switched` tells whether the new context is
    /// in effect.
    Finish { switched: bool },
}

/// What the caller observed when it performed the last action.
#[derive(PartialEq, Eq, Structural, Clone, Copy, Debug)]
pub enum Event {
    /// Begin the protocol.
    Start,
    /// The thread's current context.
    Current { handle: u64 },
    /// The newly constructed context (`0`: construction failed).
    Constructed { handle: u64 },
    /// The context active before installation (`0`: installation failed).
    Installed { previous: u64 },
    /// The handle was released.
    Released,
}

/// Where a session stands.
#[derive(PartialEq, Eq, Structural, Clone, Copy, Debug)]
pub enum Stage {
    Ready,
    Querying,
    Constructing,
    Installing,
    ReleasingPrevious,
    ReleasingFresh,
    Done,
}

/// The state of a session, as the contracts see it.
pub struct SessionView {
    pub mask: u32,
    pub name: Seq<char>,
    pub stage: Stage,
    /// The context that was current when the protocol began (borrowed).
    pub current: u64,
    /// The context that the protocol constructed (owned).
    pub fresh: u64,
    /// The context that installation superseded (owned).
    pub previous: u64,
    /// The handles released so far, in order.
    pub released: Seq<u64>,
}

impl SessionView {
    /// A session that has not yet begun, for `mask` and `name`.
    pub open spec fn ready(mask: u32, name: Seq<char>) -> SessionView {
        SessionView {
            mask,
            name,
            stage: Stage::Ready,
            current: 0,
            fresh: 0,
            previous: 0,
            released: Seq::empty(),
        }
    }

    /// Whether the new context took effect: it was constructed and installed.
    pub open spec fn switched(self) -> bool {
        self.fresh != 0 && self.previous != 0
    }

    /// The handles that the protocol came to own, in the order in which
    /// they are to be released.
    pub open spec fn owned(self) -> Seq<u64> {
        if self.fresh == 0 {
            Seq::empty()
        } else if self.previous == 0 {
            seq![self.fresh]
        } else {
            seq![self.previous, self.fresh]
        }
    }

    /// The invariant of a session: handles are released only once
    /// installation has been decided, each owned handle once, and a
    /// finished session has released exactly the handles it owned.
    pub open spec fn inv(self) -> bool {
        match self.stage {
            Stage::Ready => self.current == 0 && self.fresh == 0 && self.previous == 0
                && self.released.len() == 0,
            Stage::Querying => self.fresh == 0 && self.previous == 0 && self.released.len()
                == 0,
            Stage::Constructing => self.fresh == 0 && self.previous == 0
                && self.released.len() == 0,
            Stage::Installing => self.fresh != 0 && self.previous == 0 && self.released.len()
                == 0,
            Stage::ReleasingPrevious => self.fresh != 0 && self.previous != 0
                && self.released.len() == 0,
            Stage::ReleasingFresh => self.fresh != 0 && self.released == self.owned().drop_last(),
            Stage::Done => self.released == self.owned(),
        }
    }

    /// Whether `e` is the kind of event that answers the session's last action.
    pub open spec fn accepts(self, e: Event) -> bool {
        match self.stage {
            Stage::Ready => e is Start,
            Stage::Querying => e is Current,
            Stage::Constructing => e is Constructed,
            Stage::Installing => e is Installed,
            Stage::ReleasingPrevious => e is Released,
            Stage::ReleasingFresh => e is Released,
            Stage::Done => false,
        }
    }
}

/// What an [`Action`] asks for.
pub enum ActionView {
    QueryCurrent,
    Construct { mask: u32, name: Seq<char>, base: u64 },
    Install { handle: u64 },
    Release { handle: u64 },
    Finish { switched: bool },
}

impl View for Action {
    type V = ActionView;

    open spec fn view(&self) -> ActionView {
        match self {
            Action::QueryCurrent => ActionView::QueryCurrent,
            Action::Construct { mask, name, base } => ActionView::Construct {
                mask: *mask,
                name: name@,
                base: *base,
            },
            Action::Install { handle } => ActionView::Install { handle: *handle },
            Action::Release { handle } => ActionView::Release { handle: *handle },
            Action::Finish { switched } => ActionView::Finish { switched: *switched },
        }
    }
}

impl SessionView {
    /// The state after the session takes `e`.
    pub open spec fn next(self, e: Event) -> SessionView {
        match e {
            Event::Start => SessionView { stage: Stage::Querying, ..self },
            Event::Current { handle } => SessionView {
                stage: Stage::Constructing,
                current: handle,
                ..self
            },
            Event::Constructed { handle } => if handle == 0 {
                SessionView { stage: Stage::Done, ..self }
            } else {
                SessionView { stage: Stage::Installing, fresh: handle, ..self }
            },
            Event::Installed { previous } => if previous == 0 {
                SessionView { stage: Stage::ReleasingFresh, ..self }
            } else {
                SessionView { stage: Stage::ReleasingPrevious, previous, ..self }
            },
            Event::Released => if self.stage == Stage::ReleasingPrevious {
                SessionView {
                    stage: Stage::ReleasingFresh,
                    released: self.released.push(self.previous),
                    ..self
                }
            } else {
                SessionView {
                    stage: Stage::Done,
                    released: self.released.push(self.fresh),
                    ..self
                }
            },
        }
    }

    /// The action that the session hands out when it takes `e`.
    pub open spec fn decide(self, e: Event) -> ActionView {
        match e {
            Event::Start => ActionView::QueryCurrent,
            Event::Current { handle } => ActionView::Construct {
                mask: self.mask,
                name: self.name,
                base: handle,
            },
            Event::Constructed { handle } => if handle == 0 {
                ActionView::Finish { switched: false }
            } else {
                ActionView::Install { handle }
            },
            Event::Installed { previous } => if previous == 0 {
                ActionView::Release { handle: self.fresh }
            } else {
                ActionView::Release { handle: previous }
            },
            Event::Released => if self.stage == Stage::ReleasingPrevious {
                ActionView::Release { handle: self.fresh }
            } else {
                ActionView::Finish { switched: self.switched() }
            },
        }
    }
}

/// Where a run of the protocol stands, and the handles it has seen.
#[derive(Clone, Copy)]
struct Progress {
    stage: Stage,
    current: u64,
    fresh: u64,
    previous: u64,
    released: Ghost<Seq<u64>>,
}

/// One run of the context-swap protocol.
pub struct SwapSession {
    mask: u32,
    name: String,
    progress: Progress,
}

impl View for SwapSession {
    type V = SessionView;

    closed spec fn view(&self) -> SessionView {
        SessionView {
            mask: self.mask,
            name: self.name@,
            stage: self.progress.stage,
            current: self.progress.current,
            fresh: self.progress.fresh,
            previous: self.progress.previous,
            released: self.progress.released@,
        }
    }
}

impl SwapSession {
    #[verifier::type_invariant]
    spec fn well_formed(&self) -> bool {
        self@.inv()
    }

    /// A session that will switch the categories of `mask` to `name`.
    pub fn new(mask: u32, name: String) -> (s: SwapSession)
        ensures
            s@ == SessionView::ready(mask, name@),
            s@.inv(),
    {
        SwapSession {
            mask,
            name,
            progress: Progress {
                stage: Stage::Ready,
                current: 0,
                fresh: 0,
                previous: 0,
                released: Ghost(Seq::empty()),
            },
        }
    }

    /// Whether the session has finished.
    pub fn is_done(&self) -> (r: bool)
        ensures
            r == (self@.stage == Stage::Done),
    {
        self.progress.stage == Stage::Done
    }

    /// Whether `e` answers the session's last action.
    pub fn accepts(&self, e: &Event) -> (r: bool)
        ensures
            r == self@.accepts(*e),
    {
        match (self.progress.stage, e) {
            (Stage::Ready, Event::Start) => true,
            (Stage::Querying, Event::Current { .. }) => true,
            (Stage::Constructing, Event::Constructed { .. }) => true,
            (Stage::Installing, Event::Installed { .. }) => true,
            (Stage::ReleasingPrevious, Event::Released) => true,
            (Stage::ReleasingFresh, Event::Released) => true,
            _ => false,
        }
    }

    /// Takes the outcome of the last action and decides the next one.
    pub fn step(&mut self, e: Event) -> (a: Action)
        requires
            old(self)@.accepts(e),
        ensures
            final(self)@ == old(self)@.next(e),
            a@ == old(self)@.decide(e),
            final(self)@.inv(),
    {
        proof {
            use_type_invariant(&*self);
            let v = old(self)@;
            assert(v.released.len() == 0 ==> v.released =~= Seq::<u64>::empty());
            assert(seq![v.fresh].drop_last() =~= Seq::<u64>::empty());
            assert(seq![v.previous, v.fresh].drop_last() =~= seq![v.previous]);
            assert(seq![v.previous].push(v.fresh) =~= seq![v.previous, v.fresh]);
            assert(Seq::<u64>::empty().push(v.fresh) =~= seq![v.fresh]);
            assert(Seq::<u64>::empty().push(v.previous) =~= seq![v.previous]);
        }
        let p = self.progress;
        let (next, action) = match e {
            Event::Start => (Progress { stage: Stage::Querying, ..p }, Action::QueryCurrent),
            Event::Current { handle } => (
                Progress { stage: Stage::Constructing, current: handle, ..p },
                Action::Construct { mask: self.mask, name: self.name.clone(), base: handle },
            ),
            Event::Constructed { handle } => {
                if handle == 0 {
                    (Progress { stage: Stage::Done, ..p }, Action::Finish { switched: false })
                } else {
                    (
                        Progress { stage: Stage::Installing, fresh: handle, ..p },
                        Action::Install { handle },
                    )
                }
            },
            Event::Installed { previous } => {
                if previous == 0 {
                    (
                        Progress { stage: Stage::ReleasingFresh, ..p },
                        Action::Release { handle: p.fresh },
                    )
                } else {
                    (
                        Progress { stage: Stage::ReleasingPrevious, previous, ..p },
                        Action::Release { handle: previous },
                    )
                }
            },
            Event::Released => {
                if p.stage == Stage::ReleasingPrevious {
                    (
                        Progress {
                            stage: Stage::ReleasingFresh,
                            released: Ghost(p.released@.push(p.previous)),
                            ..p
                        },
                        Action::Release { handle: p.fresh },
                    )
                } else {
                    (
                        Progress {
                            stage: Stage::Done,
                            released: Ghost(p.released@.push(p.fresh)),
                            ..p
                        },
                        Action::Finish { switched: p.previous != 0 },
                    )
                }
            },
        };
        self.progress = next;
        action
    }
}

/// Switch every category to `new_locale`.
pub fn set_locale_all(new_locale: &Locale) -> (s: SwapSession)
    ensures
        s@ == SessionView::ready(LC_ALL_MASK, new_locale@.name()),
        s@.inv(),
{
    SwapSession::new(Category::all_mask(), new_locale.to_name())
}

/// Switch the `for_category` category to `new_locale`, leaving the others
/// as they are.
pub fn set_locale(new_locale: &Locale, for_category: &Category) -> (s: SwapSession)
    ensures
        s@ == SessionView::ready(for_category.mask(), new_locale@.name()),
        s@.inv(),
{
    SwapSession::new(for_category.to_os_mask(), new_locale.to_name())
}

/// Switch the `for_category` category to the locale that the process
/// environment (`LC_ALL`, the category's own `LC_*` variable, `LANG`)
/// names, which the OS is asked for by the empty name.
pub fn set_locale_from_env(for_category: &Category) -> (s: SwapSession)
    ensures
        s@ == SessionView::ready(for_category.mask(), Seq::empty()),
        s@.inv(),
{
    SwapSession::new(for_category.to_os_mask(), String::new())
}

/// The context that the OS constructs for the categories of `mask` and
/// the name `name`, every other category keeping its name in `base`.
pub open spec fn constructed(
    base: spec_fn(Category) -> Seq<char>,
    mask: u32,
    name: Seq<char>,
) -> spec_fn(Category) -> Seq<char> {
    |c: Category|
        if c.mask() & mask != 0 {
            name
        } else {
            base(c)
        }
}

/// The thread's context after the finished session `s`, given the one
/// before it: the constructed context where it was installed, the old
/// one otherwise.
pub open spec fn context_after(
    before: spec_fn(Category) -> Seq<char>,
    s: SessionView,
) -> spec_fn(Category) -> Seq<char> {
    if s.switched() {
        constructed(before, s.mask, s.name)
    } else {
        before
    }
}

/// What a query of category `c` gives under the context `ctx`.
pub open spec fn reported(ctx: spec_fn(Category) -> Seq<char>, c: Category) -> Result<
    LocaleView,
    LocaleError,
> {
    query_outcome(Some(ctx(c)))
}

/// Whether `s` is a finished session, started for `mask` and `name`, that
/// switched the thread to its new context.
pub open spec fn switched_to(s: SessionView, mask: u32, name: Seq<char>) -> bool {
    s.inv() && s.stage == Stage::Done && s.switched() && s.mask == mask && s.name == name
}

/// Round trip: once a session for one category and a well-formed
/// identifier has switched, a query of that category reports the
/// identifier.
pub proof fn law_round_trip(
    before: spec_fn(Category) -> Seq<char>,
    l: LocaleView,
    c: Category,
    s: SessionView,
)
    requires
        l.wf(),
        switched_to(s, c.mask(), l.name()),
    ensures
        reported(context_after(before, s), c) == Ok::<LocaleView, LocaleError>(l),
{
    lemma_mapping_injective(c, c);
    lemma_name_round_trip(l);
}

/// Bulk consistency: once a session for all categories and a well-formed
/// identifier has switched, every category reports the identifier.
pub proof fn law_bulk_consistency(
    before: spec_fn(Category) -> Seq<char>,
    l: LocaleView,
    s: SessionView,
)
    requires
        l.wf(),
        switched_to(s, LC_ALL_MASK, l.name()),
    ensures
        forall|c: Category|
            #[trigger] reported(context_after(before, s), c) == Ok::<LocaleView, LocaleError>(l),
{
    lemma_name_round_trip(l);
    assert forall|c: Category|
        #[trigger] reported(context_after(before, s), c) == Ok::<LocaleView, LocaleError>(l) by {
        lemma_mask_values(c);
    }
}

/// Isolation: switching all categories to `l1` and then the currency
/// category to `l2` leaves currency at `l2` and every other category at
/// `l1`.
pub proof fn law_isolation(
    before: spec_fn(Category) -> Seq<char>,
    l1: LocaleView,
    l2: LocaleView,
    s1: SessionView,
    s2: SessionView,
)
    requires
        l1.wf(),
        l2.wf(),
        switched_to(s1, LC_ALL_MASK, l1.name()),
        switched_to(s2, Category::Currency.mask(), l2.name()),
    ensures
        reported(context_after(context_after(before, s1), s2), Category::Currency) == Ok::<
            LocaleView,
            LocaleError,
        >(l2),
        forall|c: Category|
            c != Category::Currency ==> #[trigger] reported(
                context_after(context_after(before, s1), s2),
                c,
            ) == Ok::<LocaleView, LocaleError>(l1),
{
    lemma_name_round_trip(l1);
    lemma_name_round_trip(l2);
    lemma_mapping_injective(Category::Currency, Category::Currency);
    assert forall|c: Category|
        c != Category::Currency implies #[trigger] reported(
            context_after(context_after(before, s1), s2),
            c,
        ) == Ok::<LocaleView, LocaleError>(l1) by {
        lemma_mask_values(c);
        lemma_mapping_injective(c, Category::Currency);
    }
}

/// Idempotence: switching a category to the same identifier twice in a
/// row leaves the same context as switching it once, and the category
/// reports the identifier.
pub proof fn law_idempotence(
    before: spec_fn(Category) -> Seq<char>,
    l: LocaleView,
    c: Category,
    s1: SessionView,
    s2: SessionView,
)
    requires
        l.wf(),
        switched_to(s1, c.mask(), l.name()),
        switched_to(s2, c.mask(), l.name()),
    ensures
        forall|d: Category|
            #[trigger] context_after(context_after(before, s1), s2)(d) == context_after(
                before,
                s1,
            )(d),
        reported(context_after(context_after(before, s1), s2), c) == Ok::<LocaleView, LocaleError>(
            l,
        ),
{
    lemma_name_round_trip(l);
    lemma_mapping_injective(c, c);
}

/// A session that did not switch leaves the thread's context as it was,
/// and has released exactly the handles it came to own.
pub proof fn law_failure_keeps_context(before: spec_fn(Category) -> Seq<char>, s: SessionView)
    requires
        s.inv(),
        s.stage == Stage::Done,
        !s.switched(),
    ensures
        context_after(before, s) == before,
        s.released == s.owned(),
{
}

} // verus!
