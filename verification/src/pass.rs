//! One pass over the waiting messages, as a machine that is fed one event
//! at a time and answers each with the next thing to do.
//!
//! The caller talks to the service, shows the notifications and writes the
//! record to disk. It performs the action that `Pass::step` hands out and
//! reports what came of it as the next event, until the action is
//! `Finish`. Nothing is deleted on the service before every message of the
//! batch has been shown, and the record changes only after the service has
//! deleted.

use vstd::prelude::*;
use crate::notice::{Notice, NoticeView, notice_for, notice_of};
use crate::pipeline::{
    Effect, EffectView, PipelineError, batch_effects, credentials, effect_views, is_highest,
    lemma_effect_in_batch, lemma_effects_cover, lemma_highest_exists, lemma_highest_unique,
    plan_batch, settle, settled,
};
use crate::service::{Request, RequestView};
use crate::sync::{
    acknowledge_request, acknowledge_spec, delete_request, delete_spec, download_request,
    download_spec,
};
use crate::types::{Config, ConfigView, Message, MessageView, has_credentials, views};

verus! {

/// Where a pass stands: each stage but `Fresh` and `Finished` waits for
/// the outcome of one action.
#[derive(Clone, Copy, Debug, PartialEq, Eq, Structural)]
pub enum Stage {
    /// Nothing has happened yet.
    Fresh,
    /// The download runs.
    Downloading,
    /// A notification or an acknowledgement runs.
    Working,
    /// The deletion up to the mark runs.
    Deleting,
    /// The record is being stored.
    Storing,
    /// The pass is over.
    Finished,
}

/// What the caller reports to a pass.
#[derive(Clone, Debug, PartialEq, Eq)]
pub enum PassEvent {
    /// The pass is asked to begin.
    Begun,
    /// The service answered the download with this batch.
    Downloaded(Vec<Message>),
    /// The download failed, on the way or by the service's verdict.
    DownloadFailed,
    /// The notification or acknowledgement was carried out or given up.
    EffectDone,
    /// The service deleted up to the mark.
    Deleted,
    /// The deletion failed.
    DeleteFailed,
    /// The record is on disk.
    Stored,
    /// The record could not be written.
    StoreFailed,
}

pub ghost enum PassEventView {
    Begun,
    Downloaded(Seq<MessageView>),
    DownloadFailed,
    EffectDone,
    Deleted,
    DeleteFailed,
    Stored,
    StoreFailed,
}

impl View for PassEvent {
    type V = PassEventView;

    open spec fn view(&self) -> PassEventView {
        match *self {
            PassEvent::Begun => PassEventView::Begun,
            PassEvent::Downloaded(batch) => PassEventView::Downloaded(views(batch@)),
            PassEvent::DownloadFailed => PassEventView::DownloadFailed,
            PassEvent::EffectDone => PassEventView::EffectDone,
            PassEvent::Deleted => PassEventView::Deleted,
            PassEvent::DeleteFailed => PassEventView::DeleteFailed,
            PassEvent::Stored => PassEventView::Stored,
            PassEvent::StoreFailed => PassEventView::StoreFailed,
        }
    }
}

/// What the caller is to do next.
#[derive(Debug, PartialEq, Eq)]
pub enum PassAction {
    /// Send the download request; report `Downloaded` or `DownloadFailed`.
    Download(Request),
    /// Show the notification; report `EffectDone` whatever came of it.
    Notify(Notice),
    /// Send the acknowledgement; report `EffectDone` whatever came of it.
    Acknowledge(Request),
    /// Send the deletion; report `Deleted` or `DeleteFailed`.
    Delete(Request),
    /// Write the record to disk; report `Stored` or `StoreFailed`.
    Store,
    /// The pass is over, with this outcome.
    Finish(Result<(), PipelineError>),
}

pub ghost enum PassActionView {
    Download(RequestView),
    Notify(NoticeView),
    Acknowledge(RequestView),
    Delete(RequestView),
    Store,
    Finish(Result<(), PipelineError>),
}

impl View for PassAction {
    type V = PassActionView;

    open spec fn view(&self) -> PassActionView {
        match *self {
            PassAction::Download(request) => PassActionView::Download(request@),
            PassAction::Notify(notice) => PassActionView::Notify(notice@),
            PassAction::Acknowledge(request) => PassActionView::Acknowledge(request@),
            PassAction::Delete(request) => PassActionView::Delete(request@),
            PassAction::Store => PassActionView::Store,
            PassAction::Finish(outcome) => PassActionView::Finish(outcome),
        }
    }
}

/// What a pass knows: its stage, the credentials it began with, the batch
/// it downloaded, and the place in the batch's effects of the one that runs.
pub ghost struct PassView {
    pub stage: Stage,
    pub secret: Seq<char>,
    pub device_id: Seq<char>,
    pub batch: Seq<MessageView>,
    pub next: int,
}

/// A pass that has not begun.
pub open spec fn fresh() -> PassView {
    PassView {
        stage: Stage::Fresh,
        secret: Seq::empty(),
        device_id: Seq::empty(),
        batch: Seq::empty(),
        next: 0,
    }
}

/// Whether a pass is in a state that it can reach: while it works, deletes
/// or stores it holds a batch that is not empty, and while it works one of
/// the batch's effects runs.
pub open spec fn well_formed(pass: PassView) -> bool {
    &&& pass.stage == Stage::Working || pass.stage == Stage::Deleting || pass.stage
        == Stage::Storing ==> pass.batch.len() > 0
    &&& pass.stage == Stage::Working ==> 0 <= pass.next < batch_effects(pass.batch).len()
}

/// The place of a batch's high-water mark.
pub open spec fn highest_of(batch: Seq<MessageView>) -> int {
    choose|index: int| is_highest(batch, index)
}

/// The identifier, as the service wrote it, of the message with the
/// batch's high-water mark.
pub open spec fn mark_of(batch: Seq<MessageView>) -> Seq<char> {
    batch[highest_of(batch)].id_str
}

/// The action that carries out an effect of a batch.
pub open spec fn action_of(
    effect: EffectView,
    batch: Seq<MessageView>,
    secret: Seq<char>,
) -> PassActionView {
    match effect {
        EffectView::Notify { index } => PassActionView::Notify(notice_of(batch[index])),
        EffectView::Acknowledge { index, receipt } => PassActionView::Acknowledge(
            acknowledge_spec(secret, receipt),
        ),
    }
}

/// The result of one step: the pass, the action, the record.
pub ghost struct PassTurn {
    pub pass: PassView,
    pub action: PassActionView,
    pub config: ConfigView,
}

/// The end of a pass.
pub open spec fn finish(
    pass: PassView,
    outcome: Result<(), PipelineError>,
    config: ConfigView,
) -> PassTurn {
    PassTurn {
        pass: PassView { stage: Stage::Finished, ..pass },
        action: PassActionView::Finish(outcome),
        config,
    }
}

/// The rule of a pass: the turn that it takes on an event.
///
/// It begins only with credentials. An empty batch ends it at once. The
/// effects of a batch run in their order, each once, whatever comes of
/// them; then the deletion up to the batch's mark. Only when the service
/// has deleted does the mark enter the record, which is then stored. An
/// event that does not answer the pending action ends the pass.
pub open spec fn pass_transition(
    pass: PassView,
    event: PassEventView,
    config: ConfigView,
) -> PassTurn {
    match (pass.stage, event) {
        (Stage::Fresh, PassEventView::Begun) => if has_credentials(config) {
            PassTurn {
                pass: PassView {
                    stage: Stage::Downloading,
                    secret: config.secret->0,
                    device_id: config.device_id->0,
                    ..pass
                },
                action: PassActionView::Download(
                    download_spec(config.secret->0, config.device_id->0),
                ),
                config,
            }
        } else {
            finish(pass, Err(PipelineError::MissingCredentials), config)
        },
        (Stage::Downloading, PassEventView::Downloaded(batch)) => if batch.len() == 0 {
            finish(pass, Ok(()), config)
        } else {
            PassTurn {
                pass: PassView { stage: Stage::Working, batch, next: 0, ..pass },
                action: action_of(batch_effects(batch)[0], batch, pass.secret),
                config,
            }
        },
        (Stage::Downloading, PassEventView::DownloadFailed) => finish(
            pass,
            Err(PipelineError::Download),
            config,
        ),
        (Stage::Working, PassEventView::EffectDone) => if pass.next + 1 < batch_effects(
            pass.batch,
        ).len() {
            PassTurn {
                pass: PassView { next: pass.next + 1, ..pass },
                action: action_of(
                    batch_effects(pass.batch)[pass.next + 1],
                    pass.batch,
                    pass.secret,
                ),
                config,
            }
        } else {
            PassTurn {
                pass: PassView { stage: Stage::Deleting, ..pass },
                action: PassActionView::Delete(
                    delete_spec(pass.secret, pass.device_id, mark_of(pass.batch)),
                ),
                config,
            }
        },
        (Stage::Deleting, PassEventView::Deleted) => PassTurn {
            pass: PassView { stage: Stage::Storing, ..pass },
            action: PassActionView::Store,
            config: settled(config, mark_of(pass.batch), true),
        },
        (Stage::Deleting, PassEventView::DeleteFailed) => finish(pass, Ok(()), config),
        (Stage::Storing, PassEventView::Stored) => finish(pass, Ok(()), config),
        (Stage::Storing, PassEventView::StoreFailed) => finish(
            pass,
            Err(PipelineError::Store),
            config,
        ),
        _ => finish(pass, Err(PipelineError::OutOfSequence), config),
    }
}

/// A pass over the waiting messages.
#[derive(Debug)]
pub struct Pass {
    stage: Stage,
    secret: String,
    device_id: String,
    batch: Vec<Message>,
    effects: Vec<Effect>,
    next: usize,
    highest: usize,
    mark: String,
}

impl View for Pass {
    type V = PassView;

    closed spec fn view(&self) -> PassView {
        PassView {
            stage: self.stage,
            secret: self.secret@,
            device_id: self.device_id@,
            batch: views(self.batch@),
            next: self.next as int,
        }
    }
}

fn action_for(effect: &Effect, batch: &Vec<Message>, secret: &str) -> (action: PassAction)
    requires
        effect matches Effect::Notify { index } ==> index < batch@.len(),
        effect matches Effect::Acknowledge { receipt, .. } ==> receipt@.len() > 0,
    ensures
        action@ == action_of(effect@, views(batch@), secret@),
{
    match effect {
        Effect::Notify { index } => PassAction::Notify(notice_for(&batch[*index])),
        Effect::Acknowledge { index: _, receipt } => PassAction::Acknowledge(
            acknowledge_request(secret, receipt.as_str()),
        ),
    }
}

impl Pass {
    #[verifier::type_invariant]
    spec fn sound(&self) -> bool {
        &&& well_formed(self@)
        &&& self.stage == Stage::Working || self.stage == Stage::Deleting || self.stage
            == Stage::Storing ==> {
            &&& effect_views(self.effects@) == batch_effects(views(self.batch@))
            &&& is_highest(views(self.batch@), self.highest as int)
            &&& self.mark@ == self.batch@[self.highest as int].id_str@
        }
    }

    /// A pass that has not begun.
    pub fn new() -> (pass: Pass)
        ensures
            pass@ == fresh(),
    {
        let pass = Pass {
            stage: Stage::Fresh,
            secret: String::new(),
            device_id: String::new(),
            batch: Vec::new(),
            effects: Vec::new(),
            next: 0,
            highest: 0,
            mark: String::new(),
        };
        assert(pass@.batch =~= Seq::empty());
        pass
    }

    /// Where the pass stands.
    pub fn stage(&self) -> (stage: Stage)
        ensures
            stage == self@.stage,
    {
        self.stage
    }

    /// Whether the pass is over.
    pub fn finished(&self) -> (over: bool)
        ensures
            over == (self@.stage == Stage::Finished),
    {
        match self.stage {
            Stage::Finished => true,
            _ => false,
        }
    }

    /// Takes one event and says what to do next: the pass, the action and
    /// the record are those of `pass_transition`.
    pub fn step(self, event: PassEvent, config: &mut Config) -> (turn: (Pass, PassAction))
        ensures
            turn.0@ == pass_transition(self@, event@, old(config)@).pass,
            turn.1@ == pass_transition(self@, event@, old(config)@).action,
            final(config)@ == pass_transition(self@, event@, old(config)@).config,
            well_formed(turn.0@),
    {
        proof {
            use_type_invariant(&self);
        }
        let ghost before = self@;
        let Pass { stage, secret, device_id, batch, effects, next, highest, mark } = self;
        match (stage, event) {
            (Stage::Fresh, PassEvent::Begun) => match credentials(config) {
                Ok(found) => {
                    let request = download_request(
                        found.secret.as_str(),
                        found.device_id.as_str(),
                    );
                    let pass = Pass {
                        stage: Stage::Downloading,
                        secret: found.secret,
                        device_id: found.device_id,
                        batch,
                        effects,
                        next,
                        highest,
                        mark,
                    };
                    (pass, PassAction::Download(request))
                },
                Err(_) => {
                    let pass = Pass {
                        stage: Stage::Finished,
                        secret,
                        device_id,
                        batch,
                        effects,
                        next,
                        highest,
                        mark,
                    };
                    (pass, PassAction::Finish(Err(PipelineError::MissingCredentials)))
                },
            },
            (Stage::Downloading, PassEvent::Downloaded(fetched)) => match plan_batch(&fetched) {
                Some(plan) => {
                    proof {
                        lemma_effect_in_batch(views(fetched@), 0);
                    }
                    let action = action_for(&plan.effects[0], &fetched, secret.as_str());
                    let pass = Pass {
                        stage: Stage::Working,
                        secret,
                        device_id,
                        batch: fetched,
                        effects: plan.effects,
                        next: 0,
                        highest: plan.highest,
                        mark: plan.mark,
                    };
                    (pass, action)
                },
                None => {
                    let pass = Pass {
                        stage: Stage::Finished,
                        secret,
                        device_id,
                        batch,
                        effects,
                        next,
                        highest,
                        mark,
                    };
                    (pass, PassAction::Finish(Ok(())))
                },
            },
            (Stage::Downloading, PassEvent::DownloadFailed) => {
                let pass = Pass {
                    stage: Stage::Finished,
                    secret,
                    device_id,
                    batch,
                    effects,
                    next,
                    highest,
                    mark,
                };
                (pass, PassAction::Finish(Err(PipelineError::Download)))
            },
            (Stage::Working, PassEvent::EffectDone) => {
                assert(effect_views(effects@).len() == effects@.len());
                let count: usize = effects.len();
                if next + 1 < count {
                    proof {
                        lemma_effect_in_batch(views(batch@), next + 1);
                    }
                    let action = action_for(&effects[next + 1], &batch, secret.as_str());
                    let pass = Pass {
                        stage: Stage::Working,
                        secret,
                        device_id,
                        batch,
                        effects,
                        next: next + 1,
                        highest,
                        mark,
                    };
                    (pass, action)
                } else {
                    proof {
                        lemma_highest_unique(
                            views(batch@),
                            highest as int,
                            highest_of(views(batch@)),
                        );
                    }
                    let request = delete_request(
                        secret.as_str(),
                        device_id.as_str(),
                        mark.as_str(),
                    );
                    let pass = Pass {
                        stage: Stage::Deleting,
                        secret,
                        device_id,
                        batch,
                        effects,
                        next,
                        highest,
                        mark,
                    };
                    (pass, PassAction::Delete(request))
                }
            },
            (Stage::Deleting, PassEvent::Deleted) => {
                proof {
                    lemma_highest_unique(
                        views(batch@),
                        highest as int,
                        highest_of(views(batch@)),
                    );
                }
                settle(config, mark.as_str(), true);
                let pass = Pass {
                    stage: Stage::Storing,
                    secret,
                    device_id,
                    batch,
                    effects,
                    next,
                    highest,
                    mark,
                };
                (pass, PassAction::Store)
            },
            (Stage::Deleting, PassEvent::DeleteFailed) => {
                let pass = Pass {
                    stage: Stage::Finished,
                    secret,
                    device_id,
                    batch,
                    effects,
                    next,
                    highest,
                    mark,
                };
                (pass, PassAction::Finish(Ok(())))
            },
            (Stage::Storing, PassEvent::Stored) => {
                let pass = Pass {
                    stage: Stage::Finished,
                    secret,
                    device_id,
                    batch,
                    effects,
                    next,
                    highest,
                    mark,
                };
                (pass, PassAction::Finish(Ok(())))
            },
            (Stage::Storing, PassEvent::StoreFailed) => {
                let pass = Pass {
                    stage: Stage::Finished,
                    secret,
                    device_id,
                    batch,
                    effects,
                    next,
                    highest,
                    mark,
                };
                (pass, PassAction::Finish(Err(PipelineError::Store)))
            },
            _ => {
                let pass = Pass {
                    stage: Stage::Finished,
                    secret,
                    device_id,
                    batch,
                    effects,
                    next,
                    highest,
                    mark,
                };
                (pass, PassAction::Finish(Err(PipelineError::OutOfSequence)))
            },
        }
    }
}

/// Every turn leaves a pass in a state that it can reach.
pub proof fn lemma_pass_stays_well_formed(pass: PassView, event: PassEventView, config: ConfigView)
    requires
        well_formed(pass),
    ensures
        well_formed(pass_transition(pass, event, config).pass),
{
    if let PassEventView::Downloaded(batch) = event {
        lemma_effects_cover(batch);
    }
}

/// A pass over a record without credentials ends at once with the error
/// that says so, and sends nothing: no request goes out before `Begun`
/// has found credentials, and a pass that is over hands out nothing but
/// its end.
pub proof fn lemma_no_credentials_no_request(
    pass: PassView,
    event: PassEventView,
    config: ConfigView,
)
    ensures
        !has_credentials(config) ==> pass_transition(fresh(), PassEventView::Begun, config)
            == finish(fresh(), Err(PipelineError::MissingCredentials), config),
        pass_transition(pass, event, config).action is Download ==> {
            &&& pass.stage == Stage::Fresh
            &&& has_credentials(config)
            &&& pass_transition(pass, event, config).action == PassActionView::Download(
                download_spec(config.secret->0, config.device_id->0),
            )
        },
        pass.stage == Stage::Fresh ==> pass_transition(pass, event, config).action is Download
            || pass_transition(pass, event, config).action is Finish,
        pass.stage == Stage::Finished ==> {
            &&& pass_transition(pass, event, config).action is Finish
            &&& pass_transition(pass, event, config).pass.stage == Stage::Finished
            &&& pass_transition(pass, event, config).config == config
        },
{
}

/// The deletion goes out in one place only: when the last effect of the
/// batch has run. It asks the service to delete up to the identifier of a
/// message of that batch, the one with the batch's high-water mark: no
/// message of the batch has a larger number.
pub proof fn lemma_delete_up_to_highest(
    pass: PassView,
    event: PassEventView,
    config: ConfigView,
    other: int,
)
    requires
        well_formed(pass),
        pass_transition(pass, event, config).action is Delete,
        0 <= other < pass.batch.len(),
    ensures
        pass.stage == Stage::Working,
        event is EffectDone,
        pass.next == batch_effects(pass.batch).len() - 1,
        is_highest(pass.batch, highest_of(pass.batch)),
        pass.batch[other].id <= pass.batch[highest_of(pass.batch)].id,
        pass_transition(pass, event, config).action == PassActionView::Delete(
            delete_spec(
                pass.secret,
                pass.device_id,
                pass.batch[highest_of(pass.batch)].id_str,
            ),
        ),
{
    let witness = lemma_highest_exists(pass.batch);
}

/// The effects of a batch run in their order: the first follows the
/// download, each of the others follows the one before it, and what comes
/// of an effect changes neither the order nor the record.
pub proof fn lemma_effects_in_order(pass: PassView, batch: Seq<MessageView>, config: ConfigView)
    requires
        well_formed(pass),
    ensures
        pass.stage == Stage::Downloading && batch.len() > 0 ==> {
            let turn = pass_transition(pass, PassEventView::Downloaded(batch), config);
            &&& turn.pass.stage == Stage::Working
            &&& turn.pass.batch == batch
            &&& turn.pass.next == 0
            &&& turn.action == action_of(batch_effects(batch)[0], batch, pass.secret)
            &&& turn.config == config
        },
        pass.stage == Stage::Working && pass.next + 1 < batch_effects(pass.batch).len() ==> {
            let turn = pass_transition(pass, PassEventView::EffectDone, config);
            &&& turn.pass == (PassView { next: pass.next + 1, ..pass })
            &&& turn.action == action_of(
                batch_effects(pass.batch)[pass.next + 1],
                pass.batch,
                pass.secret,
            )
            &&& turn.config == config
        },
{
}

/// The record changes in one place only: when the service has deleted.
/// Then the mark of the batch becomes the last message identifier and the
/// record is stored. A deletion that failed ends the pass with the record
/// as it was, so that the next pass meets the same batch again.
pub proof fn lemma_record_follows_delete(pass: PassView, event: PassEventView, config: ConfigView)
    ensures
        pass_transition(pass, event, config).config != config ==> pass.stage == Stage::Deleting
            && event is Deleted,
        pass.stage == Stage::Deleting && event is Deleted ==> {
            &&& pass_transition(pass, event, config).action == PassActionView::Store
            &&& pass_transition(pass, event, config).config == settled(
                config,
                mark_of(pass.batch),
                true,
            )
        },
        pass.stage == Stage::Deleting && event is DeleteFailed ==> pass_transition(
            pass,
            event,
            config,
        ) == finish(pass, Ok(()), config),
        pass_transition(pass, event, config).action == PassActionView::Store ==> pass.stage
            == Stage::Deleting && event is Deleted,
{
}

/// What a pass has done over a list of events: the actions it handed out,
/// in their order, and the pass and the record at the end.
pub ghost struct Trace {
    pub actions: Seq<PassActionView>,
    pub pass: PassView,
    pub config: ConfigView,
}

/// Feeds a pass the events one after the other.
pub open spec fn run(pass: PassView, events: Seq<PassEventView>, config: ConfigView) -> Trace
    decreases events.len(),
{
    if events.len() == 0 {
        Trace { actions: Seq::empty(), pass, config }
    } else {
        let turn = pass_transition(pass, events[0], config);
        let rest = run(turn.pass, events.drop_first(), turn.config);
        Trace { actions: seq![turn.action] + rest.actions, pass: rest.pass, config: rest.config }
    }
}

/// The report that an effect is done, `count` times.
pub open spec fn done_times(count: nat) -> Seq<PassEventView> {
    Seq::new(count, |i: int| PassEventView::EffectDone)
}

/// The actions for the effects of a batch from the place `from` on.
pub open spec fn effect_actions(
    batch: Seq<MessageView>,
    secret: Seq<char>,
    from: int,
) -> Seq<PassActionView> {
    Seq::new(
        (batch_effects(batch).len() - from) as nat,
        |i: int| action_of(batch_effects(batch)[from + i], batch, secret),
    )
}

proof fn lemma_run_concat(
    pass: PassView,
    front: Seq<PassEventView>,
    back: Seq<PassEventView>,
    config: ConfigView,
)
    ensures
        ({
            let first = run(pass, front, config);
            let second = run(first.pass, back, first.config);
            run(pass, front + back, config) == (Trace {
                actions: first.actions + second.actions,
                pass: second.pass,
                config: second.config,
            })
        }),
    decreases front.len(),
{
    if front.len() == 0 {
        assert(front + back =~= back);
        let second = run(pass, back, config);
        assert(Seq::<PassActionView>::empty() + second.actions =~= second.actions);
    } else {
        let turn = pass_transition(pass, front[0], config);
        assert((front + back)[0] == front[0]);
        assert((front + back).drop_first() =~= front.drop_first() + back);
        lemma_run_concat(turn.pass, front.drop_first(), back, turn.config);
        let first = run(pass, front, config);
        let rest = run(turn.pass, front.drop_first(), turn.config);
        let second = run(first.pass, back, first.config);
        assert(seq![turn.action] + (rest.actions + second.actions) =~= (seq![turn.action]
            + rest.actions) + second.actions);
    }
}

proof fn lemma_run_effects(pass: PassView, config: ConfigView, left: nat)
    requires
        well_formed(pass),
        pass.stage == Stage::Working,
        left == batch_effects(pass.batch).len() - 1 - pass.next,
    ensures
        ({
            let trace = run(pass, done_times(left + 1), config);
            &&& trace.pass == (PassView {
                stage: Stage::Deleting,
                next: batch_effects(pass.batch).len() - 1,
                ..pass
            })
            &&& trace.config == config
            &&& trace.actions == effect_actions(pass.batch, pass.secret, pass.next + 1)
                + seq![
                PassActionView::Delete(
                    delete_spec(pass.secret, pass.device_id, mark_of(pass.batch)),
                ),
            ]
        }),
    decreases left,
{
    let events = done_times(left + 1);
    let turn = pass_transition(pass, events[0], config);
    let delete = PassActionView::Delete(
        delete_spec(pass.secret, pass.device_id, mark_of(pass.batch)),
    );
    let expected = effect_actions(pass.batch, pass.secret, pass.next + 1) + seq![delete];
    assert(events.drop_first() =~= done_times(left));
    if left == 0 {
        let rest = run(turn.pass, events.drop_first(), turn.config);
        assert(rest.actions =~= Seq::<PassActionView>::empty());
        assert(seq![turn.action] + rest.actions =~= expected);
    } else {
        lemma_run_effects(turn.pass, config, (left - 1) as nat);
        let rest = run(turn.pass, done_times(left), config);
        assert(seq![turn.action] + rest.actions =~= expected);
    }
}

/// The events of a pass up to the deletion, where nothing fails before it.
pub open spec fn events_until_delete(batch: Seq<MessageView>) -> Seq<PassEventView> {
    seq![PassEventView::Begun, PassEventView::Downloaded(batch)] + done_times(
        batch_effects(batch).len(),
    )
}

/// The actions of a pass up to the deletion and with it: the download, the
/// effects of the batch in their order, the deletion up to the batch's mark.
pub open spec fn actions_until_delete(
    config: ConfigView,
    batch: Seq<MessageView>,
) -> Seq<PassActionView> {
    seq![PassActionView::Download(download_spec(config.secret->0, config.device_id->0))]
        + effect_actions(batch, config.secret->0, 0) + seq![
        PassActionView::Delete(
            delete_spec(config.secret->0, config.device_id->0, mark_of(batch)),
        ),
    ]
}

/// The pass while the deletion runs.
pub open spec fn deleting(config: ConfigView, batch: Seq<MessageView>) -> PassView {
    PassView {
        stage: Stage::Deleting,
        secret: config.secret->0,
        device_id: config.device_id->0,
        batch,
        next: batch_effects(batch).len() - 1,
    }
}

/// With credentials in the record and a batch that is not empty, a pass
/// does this and nothing else before it hears of the deletion, in this
/// order: it downloads; it carries out the effects of the batch, each once,
/// the messages in the order of the batch and the notification of a message
/// before its acknowledgement; it asks the service to delete up to the
/// batch's mark. The record is still as it was.
pub proof fn lemma_pass_until_delete(config: ConfigView, batch: Seq<MessageView>)
    requires
        has_credentials(config),
        batch.len() > 0,
    ensures
        run(fresh(), events_until_delete(batch), config) == (Trace {
            actions: actions_until_delete(config, batch),
            pass: deleting(config, batch),
            config,
        }),
{
    let secret = config.secret->0;
    let device_id = config.device_id->0;
    let count = batch_effects(batch).len();
    lemma_effects_cover(batch);
    let head = seq![PassEventView::Begun, PassEventView::Downloaded(batch)];
    let download = PassActionView::Download(download_spec(secret, device_id));
    let delete = PassActionView::Delete(delete_spec(secret, device_id, mark_of(batch)));

    let begun = pass_transition(fresh(), PassEventView::Begun, config);
    let working = pass_transition(begun.pass, PassEventView::Downloaded(batch), config);
    let none = Seq::<PassEventView>::empty();
    assert(head.drop_first() =~= seq![PassEventView::Downloaded(batch)]);
    assert(head.drop_first().drop_first() =~= none);
    assert(run(working.pass, none, config).actions =~= Seq::<PassActionView>::empty());
    let after_download = run(begun.pass, head.drop_first(), config);
    assert(after_download.actions =~= seq![working.action]);
    let after_head = run(fresh(), head, config);
    assert(after_head.actions =~= seq![download, working.action]);

    lemma_run_effects(working.pass, config, (count - 1) as nat);
    lemma_run_concat(fresh(), head, done_times(count), config);
    let middle = run(working.pass, done_times(count), config);
    assert(seq![download, working.action] + middle.actions =~= actions_until_delete(
        config,
        batch,
    ));
}

/// The whole of a pass that meets no failure: after the deletion it puts
/// the batch's mark into the record as the last message identifier, has
/// the record stored, and ends well.
pub proof fn lemma_complete_pass(config: ConfigView, batch: Seq<MessageView>)
    requires
        has_credentials(config),
        batch.len() > 0,
    ensures
        run(
            fresh(),
            events_until_delete(batch) + seq![PassEventView::Deleted, PassEventView::Stored],
            config,
        ) == (Trace {
            actions: actions_until_delete(config, batch) + seq![
                PassActionView::Store,
                PassActionView::Finish(Ok(())),
            ],
            pass: PassView { stage: Stage::Finished, ..deleting(config, batch) },
            config: settled(config, mark_of(batch), true),
        }),
{
    let tail = seq![PassEventView::Deleted, PassEventView::Stored];
    let stored = pass_transition(deleting(config, batch), PassEventView::Deleted, config);
    let ended = pass_transition(stored.pass, PassEventView::Stored, stored.config);
    let none = Seq::<PassEventView>::empty();
    assert(tail.drop_first() =~= seq![PassEventView::Stored]);
    assert(tail.drop_first().drop_first() =~= none);
    assert(run(ended.pass, none, ended.config).actions =~= Seq::<PassActionView>::empty());
    let after_store = run(stored.pass, tail.drop_first(), stored.config);
    assert(after_store.actions =~= seq![ended.action]);
    let after_tail = run(deleting(config, batch), tail, config);
    assert(after_tail.actions =~= seq![PassActionView::Store, PassActionView::Finish(Ok(()))]);
    lemma_pass_until_delete(config, batch);
    lemma_run_concat(fresh(), events_until_delete(batch), tail, config);
}

/// The whole of a pass whose deletion fails: it ends there, without an
/// error, and the record is as it was before the pass, so that the next
/// pass meets the same batch again.
pub proof fn lemma_pass_with_failed_delete(config: ConfigView, batch: Seq<MessageView>)
    requires
        has_credentials(config),
        batch.len() > 0,
    ensures
        run(fresh(), events_until_delete(batch) + seq![PassEventView::DeleteFailed], config) == (
        Trace {
            actions: actions_until_delete(config, batch) + seq![PassActionView::Finish(Ok(()))],
            pass: PassView { stage: Stage::Finished, ..deleting(config, batch) },
            config,
        }),
{
    let tail = seq![PassEventView::DeleteFailed];
    let ended = pass_transition(deleting(config, batch), PassEventView::DeleteFailed, config);
    let none = Seq::<PassEventView>::empty();
    assert(tail.drop_first() =~= none);
    assert(run(ended.pass, none, ended.config).actions =~= Seq::<PassActionView>::empty());
    let after_tail = run(deleting(config, batch), tail, config);
    assert(after_tail.actions =~= seq![PassActionView::Finish(Ok(()))]);
    lemma_pass_until_delete(config, batch);
    lemma_run_concat(fresh(), events_until_delete(batch), tail, config);
}

/// A pass over a record without credentials, whatever it is told after it
/// was asked to begin, hands out nothing but its end: no request leaves.
pub proof fn lemma_pass_without_credentials(config: ConfigView, events: Seq<PassEventView>)
    requires
        !has_credentials(config),
        events.len() > 0,
        events[0] is Begun,
    ensures
        run(fresh(), events, config).actions[0] == PassActionView::Finish(
            Err(PipelineError::MissingCredentials),
        ),
        run(fresh(), events, config).actions.len() == events.len(),
        forall|i: int|
            0 <= i < events.len() ==> (#[trigger] run(fresh(), events, config).actions[i])
                is Finish,
        run(fresh(), events, config).config == config,
{
    let turn = pass_transition(fresh(), events[0], config);
    lemma_run_finished(turn.pass, events.drop_first(), config);
}

proof fn lemma_run_finished(pass: PassView, events: Seq<PassEventView>, config: ConfigView)
    requires
        pass.stage == Stage::Finished,
    ensures
        run(pass, events, config).actions.len() == events.len(),
        forall|i: int|
            0 <= i < events.len() ==> (#[trigger] run(pass, events, config).actions[i]) is Finish,
        run(pass, events, config).config == config,
    decreases events.len(),
{
    if events.len() > 0 {
        let turn = pass_transition(pass, events[0], config);
        lemma_run_finished(turn.pass, events.drop_first(), config);
    }
}

} // verus!
