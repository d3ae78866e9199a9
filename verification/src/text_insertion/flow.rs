//! The flow around a delivery: bring the target application to the front,
//! let the focus settle, deliver, and try once more where the first
//! delivery ended as clipboard-only.

use vstd::prelude::*;
use crate::recording::outcome::text_view;

verus! {

/// The delay between activating the target and the first delivery.
pub const ACTIVATION_SETTLE_MS: u64 = 250;

/// The delay before the second delivery.
pub const RETRY_SETTLE_MS: u64 = 300;

/// The entry point of a flow.
#[derive(Debug, Clone, Copy, PartialEq, Eq, Structural)]
pub enum FlowKind {
    /// Text is inserted directly after a recording.
    DirectInsert,
    /// Text is inserted from the preview window, which has just closed.
    PreviewApply,
}

/// What the caller does next.
#[derive(Debug, Clone, PartialEq, Eq)]
pub enum FlowAction {
    /// Bring this application to the front. A failure to do so is logged
    /// and the flow goes on.
    Activate(String),
    /// Wait this many milliseconds.
    Settle(u64),
    /// Run one delivery and report whether it was automatic.
    Deliver,
    /// The flow is over, with this outcome.
    Finish(bool),
}

/// A flow action as a mathematical value.
pub enum FlowActionView {
    Activate(Seq<char>),
    Settle(u64),
    Deliver,
    Finish(bool),
}

impl View for FlowAction {
    type V = FlowActionView;

    open spec fn view(&self) -> FlowActionView {
        match self {
            FlowAction::Activate(t) => FlowActionView::Activate(t@),
            FlowAction::Settle(ms) => FlowActionView::Settle(*ms),
            FlowAction::Deliver => FlowActionView::Deliver,
            FlowAction::Finish(b) => FlowActionView::Finish(*b),
        }
    }
}

/// The views of a run of actions.
pub open spec fn action_views(actions: Seq<FlowAction>) -> Seq<FlowActionView> {
    Seq::new(actions.len(), |i: int| actions[i]@)
}

/// The activation of the target, where there is one.
pub open spec fn activation(target: Option<Seq<char>>) -> Seq<FlowActionView> {
    match target {
        Some(t) => seq![FlowActionView::Activate(t)],
        None => Seq::empty(),
    }
}

/// What is done up to and including the first delivery.
///
/// With a target: activate it, let the focus settle, deliver. Without
/// one: deliver, after the settling delay only where a preview window has
/// just closed.
pub open spec fn opening(kind: FlowKind, target: Option<Seq<char>>) -> Seq<FlowActionView> {
    activation(target) + (if target is Some || kind == FlowKind::PreviewApply {
        seq![FlowActionView::Settle(ACTIVATION_SETTLE_MS)]
    } else {
        Seq::empty()
    }) + seq![FlowActionView::Deliver]
}

/// What is done after the first delivery.
///
/// An automatic delivery ends the flow. A clipboard-only one is tried
/// once more: activate the target again, let the focus settle, deliver.
pub open spec fn after_first(kind: FlowKind, target: Option<Seq<char>>, auto_pasted: bool) -> Seq<
    FlowActionView,
> {
    if auto_pasted {
        closing(kind, target, true)
    } else {
        activation(target) + seq![FlowActionView::Settle(RETRY_SETTLE_MS), FlowActionView::Deliver]
    }
}

/// What is done after the last delivery: a direct insertion brings the
/// target to the front once more, then the flow ends with the outcome of
/// that delivery.
pub open spec fn closing(kind: FlowKind, target: Option<Seq<char>>, auto_pasted: bool) -> Seq<
    FlowActionView,
> {
    (if kind == FlowKind::DirectInsert {
        activation(target)
    } else {
        Seq::empty()
    }) + seq![FlowActionView::Finish(auto_pasted)]
}

fn push_activation(actions: &mut Vec<FlowAction>, target: &Option<String>)
    ensures
        action_views(final(actions)@) == action_views(old(actions)@) + activation(
            text_view(*target),
        ),
{
    match target {
        Some(t) => {
            actions.push(FlowAction::Activate(t.clone()));
            assert(action_views(actions@) =~= action_views(old(actions)@) + activation(
                text_view(*target),
            ));
        },
        None => {
            assert(action_views(actions@) =~= action_views(old(actions)@) + activation(
                text_view(*target),
            ));
        },
    }
}

fn push_action(actions: &mut Vec<FlowAction>, action: FlowAction)
    ensures
        action_views(final(actions)@) == action_views(old(actions)@) + seq![action@],
{
    actions.push(action);
    assert(action_views(actions@) =~= action_views(old(actions)@) + seq![action@]);
}

/// One run of the flow for one text.
pub struct InsertFlow {
    kind: FlowKind,
    target: Option<String>,
    deliveries: u8,
}

impl InsertFlow {
    /// The entry point.
    pub closed spec fn kind(&self) -> FlowKind {
        self.kind
    }

    /// The target application, where one was found.
    pub closed spec fn target(&self) -> Option<Seq<char>> {
        text_view(self.target)
    }

    /// The number of deliveries reported so far; counting ends at two.
    pub closed spec fn deliveries(&self) -> int {
        self.deliveries as int
    }

    /// A flow for a target that was found, or for none.
    pub fn new(kind: FlowKind, target: Option<String>) -> (f: Self)
        ensures
            f.kind() == kind,
            f.target() == text_view(target),
            f.deliveries() == 0,
    {
        InsertFlow { kind, target, deliveries: 0 }
    }

    /// The actions up to and including the first delivery.
    pub fn start(&self) -> (actions: Vec<FlowAction>)
        ensures
            action_views(actions@) == opening(self.kind(), self.target()),
    {
        let mut actions: Vec<FlowAction> = Vec::new();
        assert(action_views(actions@) =~= Seq::<FlowActionView>::empty());
        push_activation(&mut actions, &self.target);
        let settle: bool = match self.kind {
            FlowKind::PreviewApply => true,
            FlowKind::DirectInsert => self.target.is_some(),
        };
        if settle {
            push_action(&mut actions, FlowAction::Settle(ACTIVATION_SETTLE_MS));
        }
        push_action(&mut actions, FlowAction::Deliver);
        assert(action_views(actions@) =~= opening(self.kind(), self.target()));
        actions
    }

    /// Takes the outcome of a delivery and gives the actions that follow.
    ///
    /// After the first delivery these are `after_first`; after the second
    /// the flow closes with that delivery's outcome, and so it does for
    /// any report beyond the second: there is exactly one retry.
    pub fn on_delivered(&mut self, auto_pasted: bool) -> (actions: Vec<FlowAction>)
        ensures
            final(self).kind() == old(self).kind(),
            final(self).target() == old(self).target(),
            final(self).deliveries() == if old(self).deliveries() < 2 {
                old(self).deliveries() + 1
            } else {
                old(self).deliveries()
            },
            action_views(actions@) == if old(self).deliveries() == 0 {
                after_first(old(self).kind(), old(self).target(), auto_pasted)
            } else {
                closing(old(self).kind(), old(self).target(), auto_pasted)
            },
    {
        let first: bool = self.deliveries == 0;
        if self.deliveries < 2 {
            self.deliveries = self.deliveries + 1;
        }
        let mut actions: Vec<FlowAction> = Vec::new();
        assert(action_views(actions@) =~= Seq::<FlowActionView>::empty());
        if first && !auto_pasted {
            push_activation(&mut actions, &self.target);
            push_action(&mut actions, FlowAction::Settle(RETRY_SETTLE_MS));
            push_action(&mut actions, FlowAction::Deliver);
            assert(action_views(actions@) =~= after_first(
                old(self).kind(),
                old(self).target(),
                auto_pasted,
            ));
        } else {
            match self.kind {
                FlowKind::DirectInsert => {
                    push_activation(&mut actions, &self.target);
                },
                FlowKind::PreviewApply => {},
            }
            push_action(&mut actions, FlowAction::Finish(auto_pasted));
            assert(action_views(actions@) =~= closing(
                old(self).kind(),
                old(self).target(),
                auto_pasted,
            ));
        }
        actions
    }
}

/// Whether a run of actions brings any application to the front.
pub open spec fn activates(actions: Seq<FlowActionView>) -> bool {
    exists|i: int| 0 <= i < actions.len() && #[trigger] actions[i] is Activate
}

/// Whether a run of actions holds a delivery.
pub open spec fn delivers(actions: Seq<FlowActionView>) -> bool {
    exists|i: int| 0 <= i < actions.len() && #[trigger] actions[i] is Deliver
}

/// All the actions of a flow whose first delivery came to `first` and
/// whose second, if there was one, to `second`.
pub open spec fn whole_flow(kind: FlowKind, target: Option<Seq<char>>, first: bool, second: bool) -> Seq<
    FlowActionView,
> {
    opening(kind, target) + after_first(kind, target, first) + (if first {
        Seq::empty()
    } else {
        closing(kind, target, second)
    })
}

/// The number of deliveries in a run of actions.
pub open spec fn delivery_count(actions: Seq<FlowActionView>) -> nat
    decreases actions.len(),
{
    if actions.len() == 0 {
        0
    } else {
        delivery_count(actions.drop_last()) + if actions.last() is Deliver {
            1nat
        } else {
            0nat
        }
    }
}

/// A run that ends in `last` has the deliveries of what comes before and
/// one more if `last` is a delivery.
proof fn lemma_count_push(actions: Seq<FlowActionView>, last: FlowActionView)
    ensures
        delivery_count(actions.push(last)) == delivery_count(actions) + if last is Deliver {
            1nat
        } else {
            0nat
        },
{
    assert(actions.push(last).drop_last() =~= actions);
}

/// The deliveries of two runs joined are those of each.
proof fn lemma_count_concat(a: Seq<FlowActionView>, b: Seq<FlowActionView>)
    ensures
        delivery_count(a + b) == delivery_count(a) + delivery_count(b),
    decreases b.len(),
{
    if b.len() == 0 {
        assert(a + b =~= a);
    } else {
        assert((a + b).drop_last() =~= a + b.drop_last());
        assert((a + b).last() == b.last());
        lemma_count_concat(a, b.drop_last());
    }
}

/// A flow delivers once where the first delivery is automatic and twice
/// where it is not, never more; it ends with the outcome of its last
/// delivery.
pub proof fn lemma_flow_delivers_once_or_twice(
    kind: FlowKind,
    target: Option<Seq<char>>,
    first: bool,
    second: bool,
)
    ensures
        delivery_count(whole_flow(kind, target, first, second)) == if first {
            1nat
        } else {
            2nat
        },
        whole_flow(kind, target, first, second).last() == FlowActionView::Finish(
            if first {
                true
            } else {
                second
            },
        ),
{
    let act = activation(target);
    assert(delivery_count(act) == 0) by {
        if target is Some {
            lemma_count_push(Seq::empty(), act[0]);
            assert(Seq::<FlowActionView>::empty().push(act[0]) =~= act);
        }
    }
    let none = Seq::<FlowActionView>::empty();
    assert(delivery_count(none) == 0);
    let settle1 = seq![FlowActionView::Settle(ACTIVATION_SETTLE_MS)];
    assert(delivery_count(settle1) == 0) by {
        lemma_count_push(none, settle1[0]);
        assert(none.push(settle1[0]) =~= settle1);
    }
    let deliver = seq![FlowActionView::Deliver];
    assert(delivery_count(deliver) == 1) by {
        lemma_count_push(none, deliver[0]);
        assert(none.push(deliver[0]) =~= deliver);
    }
    let retry = seq![FlowActionView::Settle(RETRY_SETTLE_MS), FlowActionView::Deliver];
    assert(delivery_count(retry) == 1) by {
        lemma_count_push(none, retry[0]);
        lemma_count_push(none.push(retry[0]), retry[1]);
        assert(none.push(retry[0]).push(retry[1]) =~= retry);
    }
    let open = opening(kind, target);
    let middle = if target is Some || kind == FlowKind::PreviewApply {
        settle1
    } else {
        none
    };
    assert(open == act + middle + deliver);
    lemma_count_concat(act, middle);
    lemma_count_concat(act + middle, deliver);
    assert(delivery_count(open) == 1);
    let close_first = closing(kind, target, true);
    let close_second = closing(kind, target, second);
    let finish_first = seq![FlowActionView::Finish(true)];
    let finish_second = seq![FlowActionView::Finish(second)];
    assert(delivery_count(finish_first) == 0) by {
        lemma_count_push(none, finish_first[0]);
        assert(none.push(finish_first[0]) =~= finish_first);
    }
    assert(delivery_count(finish_second) == 0) by {
        lemma_count_push(none, finish_second[0]);
        assert(none.push(finish_second[0]) =~= finish_second);
    }
    let lead = if kind == FlowKind::DirectInsert {
        act
    } else {
        none
    };
    assert(close_first == lead + finish_first);
    assert(close_second == lead + finish_second);
    lemma_count_concat(lead, finish_first);
    lemma_count_concat(lead, finish_second);
    if first {
        lemma_count_concat(open, close_first);
        assert(open + close_first + none =~= open + close_first);
    } else {
        lemma_count_concat(act, retry);
        lemma_count_concat(open, act + retry);
        lemma_count_concat(open + (act + retry), close_second);
    }
}

/// Without a target no action of a flow brings anything to the front.
pub proof fn lemma_whole_flow_without_target(kind: FlowKind, first: bool, second: bool)
    ensures
        !activates(whole_flow(kind, None, first, second)),
        delivers(whole_flow(kind, None, first, second)),
{
    let w = whole_flow(kind, None, first, second);
    let o = opening(kind, None);
    assert(w[o.len() - 1] is Deliver);
}

/// Without a target nothing is ever brought to the front, and the text is
/// still delivered.
pub proof fn lemma_no_target_no_activation(kind: FlowKind, auto_pasted: bool)
    ensures
        !activates(opening(kind, None)),
        !activates(after_first(kind, None, auto_pasted)),
        !activates(closing(kind, None, auto_pasted)),
        delivers(opening(kind, None)),
{
    let o = opening(kind, None);
    assert(o[o.len() - 1] is Deliver);
}

/// A clipboard-only first delivery is followed by exactly one more, an
/// automatic one by none; after the second delivery there is no other.
pub proof fn lemma_one_retry(kind: FlowKind, target: Option<Seq<char>>, auto_pasted: bool)
    ensures
        delivers(after_first(kind, target, false)),
        !delivers(after_first(kind, target, true)),
        !delivers(closing(kind, target, auto_pasted)),
        after_first(kind, target, false).last() is Deliver,
        closing(kind, target, auto_pasted).last() == FlowActionView::Finish(auto_pasted),
{
    let retry = after_first(kind, target, false);
    assert(retry[retry.len() - 1] is Deliver);
}

} // verus!
