//! The synthesized dispatcher.
//!
//! From a normalized descriptor the synthesis stage produces a blueprint —
//! the dispatcher's resolved name and its per-variant builder table — and the
//! dispatcher itself: one optional child slot per variant, one optional
//! whole-union fallback slot, and the last observed tag, initially empty.
//!
//! The five protocol phases route by the observed value's tag. A dedicated
//! slot for the tag wins; where none is installed the fallback slot, if any,
//! stands in, uniformly across all five phases. Children are opaque handles
//! supplied by the consumer; each phase reports where it forwarded, and the
//! embedding tree completes the forwarded call.

use vstd::prelude::*;

verus! {

/// The builder surface computed for one union: the dispatcher's resolved
/// name and, per variant in declaration order, the resolved accessor name
/// and the payload type it serves.
#[derive(Debug)]
pub struct MatcherBlueprint {
    /// The resolved dispatcher type name.
    pub matcher_name: String,
    /// The union's own name.
    pub enum_name: String,
    /// The resolved accessor names, one per variant, pairwise distinct.
    pub builder_names: Vec<String>,
    /// The payload type of each variant's single field.
    pub payload_types: Vec<String>,
}

impl MatcherBlueprint {
    /// A usable blueprint: at least one variant, one payload type per
    /// accessor, and pairwise distinct accessor names.
    pub open spec fn wf(&self) -> bool {
        &&& self.builder_names@.len() > 0
        &&& self.builder_names@.len() == self.payload_types@.len()
        &&& forall|i: int, j: int|
            0 <= i < j < self.builder_names@.len() ==> (#[trigger] self.builder_names@[i])@ != (
            #[trigger] self.builder_names@[j])@
    }
}

/// What a slot holds: a consumer-supplied child, named by the handle the
/// consumer chose, or the zero-size placeholder of `default_empty`.
#[derive(Clone, Copy, PartialEq, Eq, Debug)]
pub enum ChildWidget {
    Supplied { id: u64 },
    EmptyBox,
}

/// One occupied child slot. A slot becomes initialized the first time a
/// lifecycle pass is forwarded to it.
#[derive(Clone, Copy, PartialEq, Eq, Debug)]
pub struct Slot {
    pub widget: ChildWidget,
    pub initialized: bool,
}

/// Where a phase call was routed: the dedicated slot of one variant, or the
/// whole-union fallback slot.
#[derive(Clone, Copy, PartialEq, Eq, Debug)]
pub enum PhaseTarget {
    Dedicated { tag: usize },
    Fallback,
}

/// The sizing constraints handed to the measure phase.
#[derive(Clone, Copy, PartialEq, Eq, Debug)]
pub struct BoxConstraints {
    pub min_width: u64,
    pub min_height: u64,
    pub max_width: u64,
    pub max_height: u64,
}

impl BoxConstraints {
    pub open spec fn wf(&self) -> bool {
        &&& self.min_width <= self.max_width
        &&& self.min_height <= self.max_height
    }
}

/// A measured size.
#[derive(Clone, Copy, PartialEq, Eq, Debug)]
pub struct Size {
    pub width: u64,
    pub height: u64,
}

/// What the measure phase decided: the call goes to a slot, which measures
/// the payload and is then told its resolved placement, or — with no slot at
/// all for the tag — the constraints' minimum-satisfying size.
#[derive(Clone, Copy, PartialEq, Eq, Debug)]
pub enum MeasureOutcome {
    Forwarded { target: PhaseTarget },
    MinSize { size: Size },
}

/// One missing-slot warning: the dispatcher's name, the accessor name of the
/// unconfigured variant, and the identity of the component that reported it.
#[derive(PartialEq, Eq, Debug)]
pub struct MissingSlotWarning {
    pub matcher_name: String,
    pub accessor_name: String,
    pub widget_id: u64,
}

/// What one lifecycle pass did: the configuration warnings it emitted and
/// where it forwarded the lifecycle call.
pub struct LifecycleReport {
    pub warnings: Vec<MissingSlotWarning>,
    pub forwarded: Option<PhaseTarget>,
}

/// What one update pass did: where the update call was forwarded, whether a
/// repaint of the dispatcher's region was requested, and whether the
/// embedding tree was told its child set changed.
#[derive(Clone, Copy, PartialEq, Eq, Debug)]
pub struct UpdateReport {
    pub forwarded: Option<PhaseTarget>,
    pub repaint: bool,
    pub children_changed: bool,
}

/// The dispatcher's abstract state.
#[verifier::ext_equal]
pub struct MatcherView {
    pub matcher_name: Seq<char>,
    pub builder_names: Seq<Seq<char>>,
    pub slots: Seq<Option<Slot>>,
    pub fallback: Option<Slot>,
    pub last_tag: Option<usize>,
}

impl MatcherView {
    /// The number of variants dispatched over.
    pub open spec fn n(self) -> int {
        self.builder_names.len() as int
    }

    /// Well-formed: one slot per variant, at least one variant, pairwise
    /// distinct accessor names, and a tracked tag in range.
    pub open spec fn wf(self) -> bool {
        &&& self.slots.len() == self.builder_names.len()
        &&& self.builder_names.len() > 0
        &&& forall|i: int, j: int|
            0 <= i < j < self.builder_names.len() ==> #[trigger] self.builder_names[i]
                != #[trigger] self.builder_names[j]
        &&& (self.last_tag matches Some(t) ==> (t as int) < self.n())
    }

    /// The slot a phase call for `tag` routes to: the dedicated slot if
    /// installed, else the fallback if installed, else none.
    pub open spec fn effective_target(self, tag: usize) -> Option<PhaseTarget> {
        if self.slots[tag as int] is Some {
            Some(PhaseTarget::Dedicated { tag })
        } else if self.fallback is Some {
            Some(PhaseTarget::Fallback)
        } else {
            None
        }
    }

    /// The slot behind a routing target.
    pub open spec fn target_slot(self, t: PhaseTarget) -> Option<Slot> {
        match t {
            PhaseTarget::Dedicated { tag } => self.slots[tag as int],
            PhaseTarget::Fallback => self.fallback,
        }
    }

    /// Whether the slot behind a target has seen a lifecycle pass.
    pub open spec fn target_initialized(self, t: PhaseTarget) -> bool {
        self.target_slot(t) matches Some(s) && s.initialized
    }

    /// The state after a builder call installs a child for one variant.
    pub open spec fn install(self, tag: usize, w: ChildWidget) -> MatcherView {
        MatcherView {
            slots: self.slots.update(tag as int, Some(Slot { widget: w, initialized: false })),
            ..self
        }
    }

    /// The state after a builder call installs the whole-union fallback.
    pub open spec fn install_fallback(self, w: ChildWidget) -> MatcherView {
        MatcherView { fallback: Some(Slot { widget: w, initialized: false }), ..self }
    }

    /// The state with the slot behind `t` marked initialized.
    pub open spec fn mark_initialized(self, t: PhaseTarget) -> MatcherView {
        match t {
            PhaseTarget::Dedicated { tag } => match self.slots[tag as int] {
                Some(s) => MatcherView {
                    slots: self.slots.update(
                        tag as int,
                        Some(Slot { widget: s.widget, initialized: true }),
                    ),
                    ..self
                },
                None => self,
            },
            PhaseTarget::Fallback => match self.fallback {
                Some(s) => MatcherView {
                    fallback: Some(Slot { widget: s.widget, initialized: true }),
                    ..self
                },
                None => self,
            },
        }
    }

    /// The state after a lifecycle pass for `tag`: the tag is recorded, and
    /// the slot the pass was forwarded to becomes initialized.
    pub open spec fn lifecycle_next(self, tag: usize) -> MatcherView {
        let recorded = MatcherView { last_tag: Some(tag), ..self };
        match self.effective_target(tag) {
            Some(t) => recorded.mark_initialized(t),
            None => recorded,
        }
    }

    /// Where an event for `tag` is forwarded: only to the slot for the tag
    /// the dispatcher is already tracking; otherwise the event is dropped.
    pub open spec fn event_result(self, tag: usize) -> Option<PhaseTarget> {
        if self.last_tag == Some(tag) {
            self.effective_target(tag)
        } else {
            None
        }
    }

    /// The state after an update pass: the new tag is always recorded.
    pub open spec fn update_next(self, new_tag: usize) -> MatcherView {
        MatcherView { last_tag: Some(new_tag), ..self }
    }

    /// Where an update is forwarded. A same-tag update goes to the tag's
    /// slot. A transition forwards only to a slot that has already completed
    /// its own lifecycle initialization; otherwise it leaves initialization
    /// to the next lifecycle pass.
    pub open spec fn update_forward(self, old_tag: usize, new_tag: usize) -> Option<PhaseTarget> {
        if old_tag == new_tag {
            self.effective_target(new_tag)
        } else {
            match self.effective_target(new_tag) {
                Some(t) => if self.target_initialized(t) {
                    Some(t)
                } else {
                    None
                },
                None => None,
            }
        }
    }
}

/// The tags among the first `n` whose dedicated slot is empty, in tag order.
pub open spec fn missing_tags_upto(slots: Seq<Option<Slot>>, n: int) -> Seq<int>
    decreases n,
{
    if n <= 0 {
        Seq::empty()
    } else {
        missing_tags_upto(slots, n - 1) + (if slots[n - 1] is None {
            seq![n - 1]
        } else {
            Seq::empty()
        })
    }
}

/// The tags whose dedicated slot is empty, in tag order.
pub open spec fn missing_tags(slots: Seq<Option<Slot>>) -> Seq<int> {
    missing_tags_upto(slots, slots.len() as int)
}

/// Every listed tag is in range and its dedicated slot is indeed empty.
pub proof fn lemma_missing_tags_sound(slots: Seq<Option<Slot>>, n: int, k: int)
    requires
        n <= slots.len(),
        0 <= k < missing_tags_upto(slots, n).len(),
    ensures
        ({
            let i = missing_tags_upto(slots, n)[k];
            &&& 0 <= i < n
            &&& slots[i] is None
        }),
    decreases n,
{
    if n > 0 {
        let prefix = missing_tags_upto(slots, n - 1);
        if k < prefix.len() {
            lemma_missing_tags_sound(slots, n - 1, k);
        }
    }
}

/// Builder calls targeting different variants compose in either order.
pub proof fn lemma_install_commutes(
    v: MatcherView,
    t1: usize,
    t2: usize,
    w1: ChildWidget,
    w2: ChildWidget,
)
    requires
        t1 != t2,
        (t1 as int) < v.slots.len(),
        (t2 as int) < v.slots.len(),
    ensures
        v.install(t1, w1).install(t2, w2) == v.install(t2, w2).install(t1, w1),
{
    assert(v.install(t1, w1).install(t2, w2).slots =~= v.install(t2, w2).install(t1, w1).slots);
    assert(v.install(t1, w1).install(t2, w2) =~= v.install(t2, w2).install(t1, w1));
}

/// A later builder call for the same variant's slot overwrites the earlier
/// one: per slot, the last call wins.
pub proof fn lemma_install_overwrites(v: MatcherView, t: usize, w1: ChildWidget, w2: ChildWidget)
    requires
        (t as int) < v.slots.len(),
    ensures
        v.install(t, w1).install(t, w2) == v.install(t, w2),
{
    assert(v.install(t, w1).install(t, w2).slots =~= v.install(t, w2).slots);
    assert(v.install(t, w1).install(t, w2) =~= v.install(t, w2));
}

/// Installing the fallback composes with any variant install, in either
/// order.
pub proof fn lemma_install_fallback_commutes(
    v: MatcherView,
    t: usize,
    w1: ChildWidget,
    w2: ChildWidget,
)
    ensures
        v.install(t, w1).install_fallback(w2) == v.install_fallback(w2).install(t, w1),
{
    assert(v.install(t, w1).install_fallback(w2) =~= v.install_fallback(w2).install(t, w1));
}

/// Round trip: with a child installed for tag `t`, a lifecycle pass for `t`
/// followed by an event for `t` forwards the event to that dedicated slot,
/// once; an event for a different tag `u`, with no lifecycle pass for `u` in
/// between, is dropped.
pub proof fn lemma_event_round_trip(v: MatcherView, t: usize, u: usize)
    requires
        v.wf(),
        (t as int) < v.n(),
        (u as int) < v.n(),
        v.slots[t as int] is Some,
        u != t,
    ensures
        v.lifecycle_next(t).event_result(t) == Some(PhaseTarget::Dedicated { tag: t }),
        v.lifecycle_next(t).event_result(u) is None,
{
    assert(v.lifecycle_next(t).slots[t as int] is Some);
}

/// Transition: an update from tag `a` to a different tag `b`, both slots
/// installed, leaves the dispatcher tracking `b`, and a subsequent lifecycle
/// pass cannot report `b`'s slot missing. (That the transition requests a
/// repaint is part of the update phase's own contract.)
pub proof fn lemma_transition_tracks_new_tag(v: MatcherView, a: usize, b: usize)
    requires
        v.wf(),
        (a as int) < v.n(),
        (b as int) < v.n(),
        a != b,
        v.slots[a as int] is Some,
        v.slots[b as int] is Some,
    ensures
        v.update_next(b).last_tag == Some(b),
        forall|k: int|
            0 <= k < missing_tags(v.update_next(b).slots).len() ==> #[trigger] missing_tags(
                v.update_next(b).slots,
            )[k] != b as int,
{
    lemma_installed_not_missing(v.update_next(b).slots, b as int);
}

/// A tag with an installed dedicated slot is never listed as missing.
pub proof fn lemma_installed_not_missing(slots: Seq<Option<Slot>>, tag: int)
    requires
        0 <= tag < slots.len(),
        slots[tag] is Some,
    ensures
        forall|k: int|
            0 <= k < missing_tags(slots).len() ==> #[trigger] missing_tags(slots)[k] != tag,
{
    assert forall|k: int|
        0 <= k < missing_tags(slots).len() implies #[trigger] missing_tags(slots)[k] != tag by {
        lemma_missing_tags_sound(slots, slots.len() as int, k);
    }
}

/// The synthesized dispatcher: one optional child slot per variant, an
/// optional whole-union fallback slot, and the last observed tag.
pub struct Matcher {
    matcher_name: String,
    builder_names: Vec<String>,
    slots: Vec<Option<Slot>>,
    fallback: Option<Slot>,
    last_tag: Option<usize>,
}

impl View for Matcher {
    type V = MatcherView;

    closed spec fn view(&self) -> MatcherView {
        MatcherView {
            matcher_name: self.matcher_name@,
            builder_names: self.builder_names.deep_view(),
            slots: self.slots@,
            fallback: self.fallback,
            last_tag: self.last_tag,
        }
    }
}

impl Matcher {
    /// Creates the dispatcher for a blueprint: every slot empty, no
    /// fallback, no tag observed yet.
    pub fn new(bp: MatcherBlueprint) -> (r: Matcher)
        requires
            bp.wf(),
        ensures
            r@.wf(),
            r@.matcher_name == bp.matcher_name@,
            r@.builder_names == bp.builder_names.deep_view(),
            r@.slots == Seq::new(bp.builder_names@.len() as nat, |i: int| None::<Slot>),
            r@.fallback is None,
            r@.last_tag is None,
    {
        let n = bp.builder_names.len();
        let mut slots: Vec<Option<Slot>> = Vec::new();
        for i in 0..n
            invariant
                slots@ =~= Seq::new(i as nat, |k: int| None::<Slot>),
        {
            slots.push(None);
            assert(slots@ =~= Seq::new((i + 1) as nat, |k: int| None::<Slot>));
        }
        let r = Matcher {
            matcher_name: bp.matcher_name,
            builder_names: bp.builder_names,
            slots,
            fallback: None,
            last_tag: None,
        };
        proof {
            assert(forall|i: int, j: int|
                0 <= i < j < r@.builder_names.len() ==> #[trigger] r@.builder_names[i]
                    != #[trigger] r@.builder_names[j]) by {
                assert(forall|i: int|
                    0 <= i < bp.builder_names@.len() ==> #[trigger] r@.builder_names[i]
                        == bp.builder_names@[i]@);
            }
        }
        r
    }

    /// The number of variants the dispatcher routes over.
    pub fn num_variants(&self) -> (r: usize)
        ensures
            r as int == self@.n(),
    {
        self.builder_names.len()
    }

    /// The accessor name serving one variant.
    pub fn builder_name_at(&self, tag: usize) -> (r: String)
        requires
            (tag as int) < self@.n(),
        ensures
            r@ == self@.builder_names[tag as int],
    {
        self.builder_names[tag].clone()
    }

    /// The resolved dispatcher name.
    pub fn name(&self) -> (r: String)
        ensures
            r@ == self@.matcher_name,
    {
        self.matcher_name.clone()
    }

    /// The dedicated slot of one variant.
    pub fn slot_at(&self, tag: usize) -> (r: Option<Slot>)
        requires
            (tag as int) < self@.n(),
            self@.wf(),
        ensures
            r == self@.slots[tag as int],
    {
        self.slots[tag]
    }

    /// The whole-union fallback slot.
    pub fn fallback_slot(&self) -> (r: Option<Slot>)
        ensures
            r == self@.fallback,
    {
        self.fallback
    }

    /// The tag observed by the last lifecycle or update pass, if any.
    pub fn current_tag(&self) -> (r: Option<usize>)
        ensures
            r == self@.last_tag,
    {
        self.last_tag
    }

    /// The tag served by an accessor name, if any; accessor names are
    /// pairwise distinct, so the tag is unique.
    pub fn tag_for(&self, accessor: &str) -> (r: Option<usize>)
        ensures
            (r matches Some(t) ==> (t as int) < self@.n() && self@.builder_names[t as int]
                == accessor@),
            (r is None ==> forall|i: int|
                0 <= i < self@.n() ==> #[trigger] self@.builder_names[i] != accessor@),
    {
        let n = self.builder_names.len();
        for i in 0..n
            invariant
                n == self.builder_names@.len(),
                forall|k: int| 0 <= k < i ==> #[trigger] self@.builder_names[k] != accessor@,
        {
            proof {
                assert(self@.builder_names[i as int] == self.builder_names@[i as int]@);
            }
            if crate::names::str_eq(self.builder_names[i].as_str(), accessor) {
                return Some(i);
            }
        }
        None
    }

    /// Installs a child into one variant's slot, replacing whatever was
    /// there, and returns the dispatcher for chaining.
    pub fn with_child(self, tag: usize, child_id: u64) -> (r: Matcher)
        requires
            self@.wf(),
            (tag as int) < self@.n(),
        ensures
            r@ == self@.install(tag, (ChildWidget::Supplied { id: child_id })),
            r@.wf(),
    {
        let ghost v0 = self@;
        let mut m = self;
        m.slots[tag] = Some(Slot { widget: ChildWidget::Supplied { id: child_id }, initialized: false });
        proof {
            assert(m@ =~= v0.install(tag, (ChildWidget::Supplied { id: child_id })));
        }
        m
    }

    /// Installs a child by its accessor name; with an unknown name the
    /// dispatcher is returned unchanged.
    pub fn with_named_child(self, accessor: &str, child_id: u64) -> (r: Matcher)
        requires
            self@.wf(),
        ensures
            r@.wf(),
            (forall|i: int| 0 <= i < self@.n() ==> #[trigger] self@.builder_names[i] != accessor@)
                ==> r@ == self@,
            forall|t: int|
                0 <= t < self@.n() && #[trigger] self@.builder_names[t] == accessor@ ==> r@
                    == self@.install(t as usize, (ChildWidget::Supplied { id: child_id })),
    {
        match self.tag_for(accessor) {
            Some(t) => self.with_child(t, child_id),
            None => self,
        }
    }

    /// Installs the whole-union fallback child.
    pub fn default(self, child_id: u64) -> (r: Matcher)
        requires
            self@.wf(),
        ensures
            r@ == self@.install_fallback((ChildWidget::Supplied { id: child_id })),
            r@.wf(),
    {
        let ghost v0 = self@;
        let mut m = self;
        m.fallback = Some(Slot { widget: ChildWidget::Supplied { id: child_id }, initialized: false });
        proof {
            assert(m@ =~= v0.install_fallback((ChildWidget::Supplied { id: child_id })));
        }
        m
    }

    /// Installs a zero-size placeholder as the whole-union fallback.
    pub fn default_empty(self) -> (r: Matcher)
        requires
            self@.wf(),
        ensures
            r@ == self@.install_fallback(ChildWidget::EmptyBox),
            r@.wf(),
    {
        let ghost v0 = self@;
        let mut m = self;
        m.fallback = Some(Slot { widget: ChildWidget::EmptyBox, initialized: false });
        proof {
            assert(m@ =~= v0.install_fallback(ChildWidget::EmptyBox));
        }
        m
    }

    /// The event phase. The event reaches the slot for `tag` only when the
    /// dispatcher is already tracking that tag; otherwise it is dropped, so
    /// that no event reaches a child whose slot has not been
    /// lifecycle-initialized for the new tag. The dispatcher itself is
    /// unchanged.
    pub fn event(&self, tag: usize) -> (r: Option<PhaseTarget>)
        requires
            self@.wf(),
            (tag as int) < self@.n(),
        ensures
            r == self@.event_result(tag),
    {
        match self.last_tag {
            Some(t) if t == tag => self.effective(tag),
            _ => None,
        }
    }

    /// The routing decision shared by the phases: the dedicated slot for the
    /// tag, else the fallback, else nothing.
    fn effective(&self, tag: usize) -> (r: Option<PhaseTarget>)
        requires
            self@.wf(),
            (tag as int) < self@.n(),
        ensures
            r == self@.effective_target(tag),
    {
        if self.slots[tag].is_some() {
            Some(PhaseTarget::Dedicated { tag })
        } else if self.fallback.is_some() {
            Some(PhaseTarget::Fallback)
        } else {
            None
        }
    }

    /// The lifecycle-notify phase: records the observed tag, emits one
    /// missing-slot warning per unconfigured variant when the component was
    /// just added to the tree and no fallback is installed, and forwards the
    /// call to the tag's slot, marking it initialized.
    pub fn lifecycle(&mut self, tag: usize, widget_added: bool, widget_id: u64) -> (r:
        LifecycleReport)
        requires
            old(self)@.wf(),
            (tag as int) < old(self)@.n(),
        ensures
            final(self)@ == old(self)@.lifecycle_next(tag),
            final(self)@.wf(),
            r.forwarded == old(self)@.effective_target(tag),
            (widget_added && old(self)@.fallback is None) ==> ({
                let missing = missing_tags(old(self)@.slots);
                &&& r.warnings@.len() == missing.len()
                &&& forall|k: int|
                    0 <= k < missing.len() ==> {
                        let w = #[trigger] r.warnings@[k];
                        &&& w.matcher_name@ == old(self)@.matcher_name
                        &&& w.accessor_name@ == old(self)@.builder_names[missing[k]]
                        &&& w.widget_id == widget_id
                    }
            }),
            !(widget_added && old(self)@.fallback is None) ==> r.warnings@.len() == 0,
    {
        let mut warnings: Vec<MissingSlotWarning> = Vec::new();
        if widget_added && self.fallback.is_none() {
            let n = self.slots.len();
            for i in 0..n
                invariant
                    n == self.slots@.len(),
                    self@.wf(),
                    (tag as int) < self@.n(),
                    warnings@.len() == missing_tags_upto(self@.slots, i as int).len(),
                    forall|k: int|
                        0 <= k < warnings@.len() ==> {
                            let w = #[trigger] warnings@[k];
                            &&& w.matcher_name@ == self@.matcher_name
                            &&& w.accessor_name@ == self@.builder_names[missing_tags_upto(
                                self@.slots,
                                i as int,
                            )[k]]
                            &&& w.widget_id == widget_id
                        },
            {
                if self.slots[i].is_none() {
                    let w = MissingSlotWarning {
                        matcher_name: self.matcher_name.clone(),
                        accessor_name: self.builder_names[i].clone(),
                        widget_id,
                    };
                    warnings.push(w);
                }
                proof {
                    assert(missing_tags_upto(self@.slots, i + 1) =~= missing_tags_upto(
                        self@.slots,
                        i as int,
                    ) + (if self@.slots[i as int] is None {
                        seq![i as int]
                    } else {
                        Seq::<int>::empty()
                    }));
                }
            }
            proof {
                assert(missing_tags_upto(self@.slots, n as int) =~= missing_tags(self@.slots));
            }
        }
        let forwarded = self.effective(tag);
        let ghost pre = self@;
        self.last_tag = Some(tag);
        match forwarded {
            Some(PhaseTarget::Dedicated { tag: t }) => {
                match self.slots[t] {
                    Some(s) => {
                        self.slots[t] = Some(Slot { widget: s.widget, initialized: true });
                    },
                    None => {},
                }
            },
            Some(PhaseTarget::Fallback) => {
                match self.fallback {
                    Some(s) => {
                        self.fallback = Some(Slot { widget: s.widget, initialized: true });
                    },
                    None => {},
                }
            },
            None => {},
        }
        proof {
            assert(self@ =~= pre.lifecycle_next(tag));
        }
        LifecycleReport { warnings, forwarded }
    }

    /// The update-on-change phase, given the old and new observed tags. The
    /// new tag is always recorded. A same-tag update forwards to the tag's
    /// slot. A transition requests a repaint of the dispatcher's region,
    /// forwards only to a slot that has already completed its own lifecycle
    /// initialization, and — when no slot at all serves the new tag —
    /// signals the embedding tree that its child set changed, so the next
    /// lifecycle pass can report and pick up the missing slot.
    pub fn update(&mut self, old_tag: usize, new_tag: usize) -> (r: UpdateReport)
        requires
            old(self)@.wf(),
            (old_tag as int) < old(self)@.n(),
            (new_tag as int) < old(self)@.n(),
        ensures
            final(self)@ == old(self)@.update_next(new_tag),
            final(self)@.wf(),
            r.forwarded == old(self)@.update_forward(old_tag, new_tag),
            r.repaint == (old_tag != new_tag),
            r.children_changed == (old_tag != new_tag && old(self)@.effective_target(
                new_tag,
            ) is None),
    {
        let target = self.effective(new_tag);
        let forwarded: Option<PhaseTarget> = if old_tag == new_tag {
            target
        } else {
            match target {
                Some(t) => {
                    let s = match t {
                        PhaseTarget::Dedicated { tag } => self.slots[tag],
                        PhaseTarget::Fallback => self.fallback,
                    };
                    match s {
                        Some(s) if s.initialized => Some(t),
                        _ => None,
                    }
                },
                None => None,
            }
        };
        let repaint = old_tag != new_tag;
        let children_changed = old_tag != new_tag && target.is_none();
        let ghost pre = self@;
        self.last_tag = Some(new_tag);
        proof {
            assert(self@ =~= pre.update_next(new_tag));
        }
        UpdateReport { forwarded, repaint, children_changed }
    }

    /// The measure phase. With a slot serving the tag, the call is forwarded:
    /// the slot measures the payload under the constraints and is then told
    /// its resolved placement. With no slot at all, the dispatcher answers
    /// with the constraints' minimum-satisfying size, keeping unconfigured
    /// variants from destabilizing layout. The dispatcher is unchanged.
    pub fn layout(&self, tag: usize, bc: &BoxConstraints) -> (r: MeasureOutcome)
        requires
            self@.wf(),
            (tag as int) < self@.n(),
            bc.wf(),
        ensures
            (self@.effective_target(tag) matches Some(t) ==> r == (MeasureOutcome::Forwarded {
                target: t,
            })),
            self@.effective_target(tag) is None ==> r == (MeasureOutcome::MinSize {
                size: (Size { width: bc.min_width, height: bc.min_height }),
            }),
    {
        match self.effective(tag) {
            Some(t) => MeasureOutcome::Forwarded { target: t },
            None => MeasureOutcome::MinSize {
                size: Size { width: bc.min_width, height: bc.min_height },
            },
        }
    }

    /// The paint phase: forwards to the slot serving the tag, if any. The
    /// dispatcher is unchanged.
    pub fn paint(&self, tag: usize) -> (r: Option<PhaseTarget>)
        requires
            self@.wf(),
            (tag as int) < self@.n(),
        ensures
            r == self@.effective_target(tag),
    {
        self.effective(tag)
    }
}

} // verus!
