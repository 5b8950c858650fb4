//! The rules of a pass over the messages that wait on the service: who may
//! begin one, what a downloaded batch asks for and in which order, up to
//! which message the service is to delete, and what the pass leaves in the
//! record. The machine in `pass` strings these rules together.

use vstd::prelude::*;
use crate::types::{Config, ConfigView, Message, MessageView, has_credentials, views};

verus! {

/// Why a pass failed.
#[derive(Clone, Copy, Debug, PartialEq, Eq, Structural)]
pub enum PipelineError {
    /// The record lacks the secret or the device identifier.
    MissingCredentials,
    /// The batch could not be downloaded.
    Download,
    /// The record could not be stored after the service had deleted.
    Store,
    /// An event came that does not answer the action that was handed out.
    OutOfSequence,
}

/// The two values that every request to the service carries.
#[derive(Clone, Debug, PartialEq, Eq)]
pub struct Credentials {
    pub secret: String,
    pub device_id: String,
}

/// The credentials of a record, or the refusal to begin a pass without
/// them.
pub fn credentials(config: &Config) -> (found: Result<Credentials, PipelineError>)
    ensures
        found is Ok <==> has_credentials(config@),
        found matches Ok(c) ==> config@.secret == Some(c.secret@) && config@.device_id == Some(
            c.device_id@,
        ),
        found matches Err(e) ==> e == PipelineError::MissingCredentials,
{
    match (&config.secret, &config.device_id) {
        (Some(secret), Some(device_id)) => Ok(
            Credentials { secret: secret.clone(), device_id: device_id.clone() },
        ),
        _ => Err(PipelineError::MissingCredentials),
    }
}

/// Whether a message is an emergency that still waits for its receipt to
/// be acknowledged: its priority is 2 or more, it is not acknowledged yet,
/// and it carries a receipt, which is a string that is not empty.
pub open spec fn needs_acknowledge(message: MessageView) -> bool {
    &&& message.priority >= 2
    &&& message.acked == 0
    &&& message.receipt matches Some(receipt)
    &&& receipt.len() > 0
}

/// The receipt to acknowledge for a message, if it asks for one.
pub fn receipt_to_acknowledge(message: &Message) -> (receipt: Option<String>)
    ensures
        receipt is Some <==> needs_acknowledge(message@),
        receipt matches Some(r) ==> message@.receipt == Some(r@),
{
    if message.priority >= 2 && message.acked == 0 {
        match &message.receipt {
            Some(receipt) => {
                if receipt.as_str().is_empty() {
                    None
                } else {
                    Some(receipt.clone())
                }
            },
            None => None,
        }
    } else {
        None
    }
}

/// One thing that a batch asks of the caller.
#[derive(Clone, Debug, PartialEq, Eq)]
pub enum Effect {
    /// Show the message at `index` to the user.
    Notify { index: usize },
    /// Acknowledge `receipt`, which the message at `index` carries.
    Acknowledge { index: usize, receipt: String },
}

pub ghost enum EffectView {
    Notify { index: int },
    Acknowledge { index: int, receipt: Seq<char> },
}

impl View for Effect {
    type V = EffectView;

    open spec fn view(&self) -> EffectView {
        match *self {
            Effect::Notify { index } => EffectView::Notify { index: index as int },
            Effect::Acknowledge { index, receipt } => EffectView::Acknowledge {
                index: index as int,
                receipt: receipt@,
            },
        }
    }
}

/// The views of a list of effects, in its order.
pub open spec fn effect_views(effects: Seq<Effect>) -> Seq<EffectView> {
    Seq::new(effects.len(), |i: int| effects[i]@)
}

/// What the message at `index` asks for: always a notification, and after
/// it the acknowledgement of its receipt where it needs one.
pub open spec fn effects_of(message: MessageView, index: int) -> Seq<EffectView> {
    if needs_acknowledge(message) {
        seq![
            EffectView::Notify { index },
            EffectView::Acknowledge { index, receipt: message.receipt->0 },
        ]
    } else {
        seq![EffectView::Notify { index }]
    }
}

/// What a batch asks for: the effects of its messages, in its order.
pub open spec fn batch_effects(batch: Seq<MessageView>) -> Seq<EffectView>
    decreases batch.len(),
{
    if batch.len() == 0 {
        Seq::empty()
    } else {
        batch_effects(batch.drop_last()) + effects_of(batch.last(), batch.len() - 1)
    }
}

/// Whether `index` is the place of the batch's high-water mark: no message
/// has a larger identifier, and of those that share the largest it is the
/// one that comes last.
pub open spec fn is_highest(batch: Seq<MessageView>, index: int) -> bool {
    &&& 0 <= index < batch.len()
    &&& forall|j: int| 0 <= j < batch.len() ==> (#[trigger] batch[j]).id <= batch[index].id
    &&& forall|j: int| index < j < batch.len() ==> (#[trigger] batch[j]).id < batch[index].id
}

/// The place of the high-water mark in a batch; an empty batch has none.
pub fn highest(messages: &Vec<Message>) -> (place: Option<usize>)
    ensures
        place is None <==> messages@.len() == 0,
        place matches Some(index) ==> is_highest(views(messages@), index as int),
{
    if messages.len() == 0 {
        return None;
    }
    let mut best: usize = 0;
    let mut i: usize = 1;
    while i < messages.len()
        invariant
            1 <= i <= messages@.len(),
            best < i,
            forall|j: int| 0 <= j < i ==> (#[trigger] messages@[j]).id <= messages@[best as int].id,
            forall|j: int| best < j < i ==> (#[trigger] messages@[j]).id < messages@[best as int].id,
        decreases messages@.len() - i,
    {
        if messages[i].id >= messages[best].id {
            best = i;
        }
        i += 1;
    }
    assert(is_highest(views(messages@), best as int)) by {
        let batch = views(messages@);
        assert forall|j: int| 0 <= j < batch.len() implies (#[trigger] batch[j]).id
            <= batch[best as int].id by {
            assert(batch[j].id == messages@[j].id);
        }
        assert forall|j: int| best < j < batch.len() implies (#[trigger] batch[j]).id
            < batch[best as int].id by {
            assert(batch[j].id == messages@[j].id);
        }
    }
    Some(best)
}

/// What a batch asks of the caller.
#[derive(Clone, Debug, PartialEq, Eq)]
pub struct Plan {
    /// The notifications and acknowledgements, in the order to carry them out.
    pub effects: Vec<Effect>,
    /// The place in the batch of the message with the high-water mark.
    pub highest: usize,
    /// That message's identifier as the service wrote it: what to delete up to.
    pub mark: String,
}

impl Plan {
    /// Whether this is the plan of the batch.
    pub open spec fn fits(&self, batch: Seq<MessageView>) -> bool {
        &&& is_highest(batch, self.highest as int)
        &&& self.mark@ == batch[self.highest as int].id_str
        &&& effect_views(self.effects@) == batch_effects(batch)
    }
}

/// Plans the work for a downloaded batch. An empty batch asks for nothing,
/// not even a deletion.
pub fn plan_batch(messages: &Vec<Message>) -> (plan: Option<Plan>)
    ensures
        plan is None <==> messages@.len() == 0,
        plan matches Some(p) ==> p.fits(views(messages@)),
{
    let highest: usize = match highest(messages) {
        Some(index) => index,
        None => {
            return None;
        },
    };
    let ghost batch = views(messages@);
    let mut effects: Vec<Effect> = Vec::new();
    let mut i: usize = 0;
    while i < messages.len()
        invariant
            i <= messages@.len(),
            batch == views(messages@),
            effect_views(effects@) =~= batch_effects(batch.take(i as int)),
        decreases messages@.len() - i,
    {
        let ghost before = effect_views(effects@);
        effects.push(Effect::Notify { index: i });
        match receipt_to_acknowledge(&messages[i]) {
            Some(receipt) => {
                effects.push(Effect::Acknowledge { index: i, receipt });
            },
            None => {},
        }
        proof {
            assert(batch.take(i + 1).drop_last() =~= batch.take(i as int));
            assert(batch.take(i + 1).last() == messages@[i as int]@);
            assert(effect_views(effects@) =~= before + effects_of(messages@[i as int]@, i as int));
        }
        i += 1;
    }
    assert(batch.take(i as int) =~= batch);
    Some(Plan { effects, highest, mark: messages[highest].id_str.clone() })
}

/// The record after a pass: where the service deleted up to the mark, the
/// mark is the last message identifier; where it did not, nothing changes.
pub open spec fn settled(config: ConfigView, mark: Seq<char>, deleted: bool) -> ConfigView {
    if deleted {
        ConfigView { last_message_id: Some(mark), ..config }
    } else {
        config
    }
}

/// Ends a pass. `deleted` says whether the service deleted up to `mark`.
/// The result says whether the record changed and is to be stored.
pub fn settle(config: &mut Config, mark: &str, deleted: bool) -> (store: bool)
    ensures
        store == deleted,
        final(config)@ == settled(old(config)@, mark@, deleted),
{
    if deleted {
        config.last_message_id = Some(mark.to_owned());
    }
    deleted
}

/// How often an effect stands in a list of effects.
pub open spec fn occurrences(effects: Seq<EffectView>, wanted: EffectView) -> nat
    decreases effects.len(),
{
    if effects.len() == 0 {
        0
    } else {
        occurrences(effects.drop_last(), wanted) + if effects.last() == wanted {
            1nat
        } else {
            0nat
        }
    }
}

proof fn lemma_occurrences_concat(front: Seq<EffectView>, back: Seq<EffectView>, wanted: EffectView)
    ensures
        occurrences(front + back, wanted) == occurrences(front, wanted) + occurrences(back, wanted),
    decreases back.len(),
{
    if back.len() == 0 {
        assert(front + back =~= front);
    } else {
        assert((front + back).drop_last() =~= front + back.drop_last());
        assert((front + back).last() == back.last());
        lemma_occurrences_concat(front, back.drop_last(), wanted);
    }
}

proof fn lemma_occurrences_of_message(message: MessageView, index: int, wanted: EffectView)
    ensures
        occurrences(effects_of(message, index), wanted) == (if wanted == (EffectView::Notify {
            index,
        }) {
            1nat
        } else {
            0nat
        }) + (if needs_acknowledge(message) && wanted == (EffectView::Acknowledge {
            index,
            receipt: message.receipt->0,
        }) {
            1nat
        } else {
            0nat
        }),
{
    let notify = EffectView::Notify { index };
    let single = seq![notify];
    let none = Seq::<EffectView>::empty();
    assert(occurrences(none, wanted) == 0);
    assert(single.drop_last() =~= none);
    assert(single.last() == notify);
    assert(occurrences(single, wanted) == if notify == wanted {
        1nat
    } else {
        0nat
    });
    if needs_acknowledge(message) {
        let acknowledge = EffectView::Acknowledge { index, receipt: message.receipt->0 };
        let both = seq![notify, acknowledge];
        assert(both.drop_last() =~= single);
        assert(both.last() == acknowledge);
        assert(occurrences(both, wanted) == occurrences(single, wanted) + if acknowledge
            == wanted {
            1nat
        } else {
            0nat
        });
        assert(effects_of(message, index) =~= both);
    } else {
        assert(effects_of(message, index) =~= single);
    }
}

/// Every message of a batch is shown once, and none outside it is. The
/// receipt of a message is acknowledged once where the message is an
/// unacknowledged emergency that carries it, and never otherwise.
pub proof fn lemma_effects_per_message(batch: Seq<MessageView>, index: int, receipt: Seq<char>)
    ensures
        occurrences(batch_effects(batch), EffectView::Notify { index }) == (if 0 <= index
            < batch.len() {
            1nat
        } else {
            0nat
        }),
        occurrences(batch_effects(batch), EffectView::Acknowledge { index, receipt }) == (if 0
            <= index < batch.len() && needs_acknowledge(batch[index]) && batch[index].receipt
            == Some(receipt) {
            1nat
        } else {
            0nat
        }),
    decreases batch.len(),
{
    if batch.len() > 0 {
        let rest = batch.drop_last();
        let last = batch.len() - 1;
        lemma_effects_per_message(rest, index, receipt);
        let notify = EffectView::Notify { index };
        let acknowledge = EffectView::Acknowledge { index, receipt };
        lemma_occurrences_concat(batch_effects(rest), effects_of(batch.last(), last), notify);
        lemma_occurrences_concat(batch_effects(rest), effects_of(batch.last(), last), acknowledge);
        lemma_occurrences_of_message(batch.last(), last, notify);
        lemma_occurrences_of_message(batch.last(), last, acknowledge);
        if 0 <= index < last {
            assert(rest[index] == batch[index]);
        }
    }
}

/// A batch has one high-water mark at most: the choice among messages that
/// share the largest identifier is fixed.
pub proof fn lemma_highest_unique(batch: Seq<MessageView>, first: int, second: int)
    requires
        is_highest(batch, first),
        is_highest(batch, second),
    ensures
        first == second,
{
    if first < second {
        assert(batch[second].id < batch[first].id);
        assert(batch[first].id <= batch[second].id);
    } else if second < first {
        assert(batch[first].id < batch[second].id);
        assert(batch[second].id <= batch[first].id);
    }
}

/// The mark of a plan is the identifier of a message of the batch that
/// was just downloaded, and no message of that batch has a larger number.
pub proof fn lemma_mark_is_maximum(plan: Plan, batch: Seq<MessageView>, other: int)
    requires
        plan.fits(batch),
        0 <= other < batch.len(),
    ensures
        0 <= plan.highest < batch.len(),
        plan.mark@ == batch[plan.highest as int].id_str,
        batch[other].id <= batch[plan.highest as int].id,
{
}

/// A pass that could not delete leaves the record as it was, so the next
/// pass meets the same batch again; one that could changes the last
/// message identifier and nothing else.
pub proof fn lemma_settled(config: ConfigView, mark: Seq<char>)
    ensures
        settled(config, mark, false) == config,
        settled(config, mark, true).last_message_id == Some(mark),
        settled(config, mark, true).secret == config.secret,
        settled(config, mark, true).device_id == config.device_id,
        settled(config, mark, true).user_key == config.user_key,
        settled(config, mark, true).start_on_boot == config.start_on_boot,
        settled(settled(config, mark, true), mark, true) == settled(config, mark, true),
{
}

/// Every effect of a batch belongs to a message of the batch, and an
/// acknowledgement carries the receipt of an emergency that waits for it.
/// A batch asks for as many effects as it has messages at least.
pub proof fn lemma_effect_in_batch(batch: Seq<MessageView>, place: int)
    requires
        0 <= place < batch_effects(batch).len(),
    ensures
        batch.len() <= batch_effects(batch).len(),
        match batch_effects(batch)[place] {
            EffectView::Notify { index } => 0 <= index < batch.len(),
            EffectView::Acknowledge { index, receipt } => {
                &&& 0 <= index < batch.len()
                &&& needs_acknowledge(batch[index])
                &&& batch[index].receipt == Some(receipt)
            },
        },
    decreases batch.len(),
{
    lemma_effects_cover(batch);
    if batch.len() > 0 {
        let rest = batch.drop_last();
        if place < batch_effects(rest).len() {
            lemma_effect_in_batch(rest, place);
        }
    }
}

/// A batch asks for as many effects as it has messages at least.
pub proof fn lemma_effects_cover(batch: Seq<MessageView>)
    ensures
        batch.len() <= batch_effects(batch).len(),
    decreases batch.len(),
{
    if batch.len() > 0 {
        lemma_effects_cover(batch.drop_last());
    }
}

/// A batch that is not empty has a high-water mark.
pub proof fn lemma_highest_exists(batch: Seq<MessageView>) -> (index: int)
    requires
        batch.len() > 0,
    ensures
        is_highest(batch, index),
    decreases batch.len(),
{
    if batch.len() == 1 {
        0
    } else {
        let rest = batch.drop_last();
        let before = lemma_highest_exists(rest);
        let last = batch.len() - 1;
        assert(forall|j: int| 0 <= j < rest.len() ==> rest[j] == batch[j]);
        if batch[last].id >= batch[before].id {
            assert forall|j: int| 0 <= j < batch.len() implies (#[trigger] batch[j]).id
                <= batch[last].id by {
                if j < last {
                    assert(rest[j].id <= rest[before].id);
                }
            }
            last
        } else {
            assert forall|j: int| 0 <= j < batch.len() implies (#[trigger] batch[j]).id
                <= batch[before].id by {
                if j < last {
                    assert(rest[j].id <= rest[before].id);
                }
            }
            assert forall|j: int| before < j < batch.len() implies (#[trigger] batch[j]).id
                < batch[before].id by {
                if j < last {
                    assert(rest[j].id < rest[before].id);
                }
            }
            before
        }
    }
}

} // verus!
