use vstd::prelude::*;

use crate::guild::ApiError;
use crate::guild::GuildSummary;
use crate::label::current_date_label;
use crate::label::LABEL_END;
use crate::label::LABEL_START;
use crate::pagination::enum_step;
use crate::pagination::outcome_model;
use crate::pagination::EnumModel;
use crate::pagination::EnumStep;
use crate::pagination::Enumeration;
use crate::pagination::PageRequest;
use crate::pagination::StepModel;

verus! {

/// Page size every enumeration request asks for.
pub const PAGE_LIMIT: u32 = 100;

/// Seconds to wait before repeating a failed page request.
pub const PAGE_RETRY_DELAY_S: u64 = 3;

/// Seconds to wait at the end of every cycle, completed or failed, before
/// the next one begins.
pub const COOLDOWN_S: u64 = 15;

/// Where one reconcile cycle stands.
pub enum CycleState {
    /// The guild collection is being enumerated.
    Fetching(Enumeration),
    /// Nickname updates are being applied, one guild at a time, in fetch
    /// order; `next` is the guild whose update is pending.
    Renaming { guilds: Vec<GuildSummary>, label: String, next: usize },
    /// The cycle is over, completed or failed; the driver waits the cooldown
    /// and then wakes the machine for a fresh cycle.
    CoolingDown,
}

/// What the driver reports back to the machine: the outcome of the one
/// action it was last asked to perform.
pub enum Event {
    /// The outcome of the pending page request.
    Page(Result<Vec<GuildSummary>, ApiError>),
    /// The outcome of the pending nickname update.
    Renamed(Result<(), ApiError>),
    /// The cooldown has elapsed.
    Woke,
}

/// What the driver must do next. Every action is answered by exactly one
/// [`Event`].
pub enum Action {
    /// Wait `delay_s` seconds (zero: none), put `request` to the REST
    /// client, and answer with [`Event::Page`].
    FetchPage { delay_s: u64, request: PageRequest },
    /// Ask the REST client to rename the bot's own membership in guild
    /// `guild_id` to `nickname`, and answer with [`Event::Renamed`];
    /// `guild_name` is carried along for the driver's log line. The remote
    /// meaning of a successful update is [`apply_rename`].
    Rename { guild_id: u64, guild_name: String, nickname: String },
    /// The cycle completed: set every active shard's presence to `label`
    /// (see [`presence_updates`]), wait [`COOLDOWN_S`] seconds, and answer
    /// with [`Event::Woke`].
    Presence { label: String },
    /// The cycle failed: wait [`COOLDOWN_S`] seconds and answer with
    /// [`Event::Woke`].
    CoolDown,
}

/// The mathematical state of one reconcile cycle.
#[verifier::ext_equal]
pub ghost enum CycleModel {
    Fetching(EnumModel),
    Renaming { guilds: Seq<GuildSummary>, label: Seq<char>, next: nat },
    CoolingDown,
}

/// The mathematical view of an [`Event`].
#[verifier::ext_equal]
pub ghost enum EventModel {
    Page(Result<Seq<GuildSummary>, ApiError>),
    Renamed(Result<(), ApiError>),
    Woke,
}

/// The mathematical view of an [`Action`].
#[verifier::ext_equal]
pub ghost enum ActionModel {
    FetchPage { delay_s: nat, after: Option<u64>, limit: nat },
    Rename { guild_id: u64, guild_name: Seq<char>, nickname: Seq<char> },
    Presence { label: Seq<char> },
    CoolDown,
}

impl View for CycleState {
    type V = CycleModel;

    open spec fn view(&self) -> CycleModel {
        match self {
            CycleState::Fetching(en) => CycleModel::Fetching(en@),
            CycleState::Renaming { guilds, label, next } => CycleModel::Renaming {
                guilds: guilds@,
                label: label@,
                next: *next as nat,
            },
            CycleState::CoolingDown => CycleModel::CoolingDown,
        }
    }
}

impl View for Event {
    type V = EventModel;

    open spec fn view(&self) -> EventModel {
        match self {
            Event::Page(out) => EventModel::Page(outcome_model(*out)),
            Event::Renamed(out) => EventModel::Renamed(*out),
            Event::Woke => EventModel::Woke,
        }
    }
}

impl View for Action {
    type V = ActionModel;

    open spec fn view(&self) -> ActionModel {
        match self {
            Action::FetchPage { delay_s, request } => ActionModel::FetchPage {
                delay_s: *delay_s as nat,
                after: request.after,
                limit: request.limit as nat,
            },
            Action::Rename { guild_id, guild_name, nickname } => ActionModel::Rename {
                guild_id: *guild_id,
                guild_name: guild_name@,
                nickname: nickname@,
            },
            Action::Presence { label } => ActionModel::Presence { label: label@ },
            Action::CoolDown => ActionModel::CoolDown,
        }
    }
}

/// Which event a state is waiting for. The driver answers every action with
/// the matching event, so this always holds when it hands one back.
pub open spec fn expects(st: CycleModel, ev: EventModel) -> bool {
    match (st, ev) {
        (CycleModel::Fetching(_), EventModel::Page(_)) => true,
        (CycleModel::Renaming { .. }, EventModel::Renamed(_)) => true,
        (CycleModel::CoolingDown, EventModel::Woke) => true,
        _ => false,
    }
}

/// A state the machine can actually be in, for the configured page size.
pub open spec fn cycle_wf(limit: nat, st: CycleModel) -> bool {
    match st {
        CycleModel::Fetching(en) => en.wf() && en.limit == limit,
        CycleModel::Renaming { guilds, next, .. } => next < guilds.len(),
        CycleModel::CoolingDown => true,
    }
}

/// The transition of the reconcile cycle on one event.
///
/// `fresh_label` stands for the date label read from the clock at this step,
/// for the two transitions that need a fresh one: entering the renaming pass
/// and entering the presence pass. Transitions that draw no label ignore it.
///
/// A wake starts a fresh enumeration from the beginning of the collection
/// with a full retry budget. A page outcome advances the enumeration as
/// [`enum_step`] says; a complete collection starts the renaming pass over
/// it in fetch order (or, when it is empty, goes straight to the presence
/// pass), and an exhausted budget ends the cycle as failed. A successful
/// rename moves to the next guild, the last one moving on to the presence
/// pass; a failed rename ends the cycle as failed, discarding the rest of
/// the pass. A failed cycle performs no presence update.
pub open spec fn cycle_spec_step(
    limit: nat,
    st: CycleModel,
    ev: EventModel,
    fresh_label: Seq<char>,
) -> (CycleModel, ActionModel) {
    match (st, ev) {
        (CycleModel::CoolingDown, EventModel::Woke) => (
            CycleModel::Fetching(EnumModel::init(limit)),
            ActionModel::FetchPage { delay_s: 0, after: None, limit },
        ),
        (CycleModel::Fetching(en), EventModel::Page(out)) => match enum_step(en, out) {
            StepModel::More(m2) => (
                CycleModel::Fetching(m2),
                ActionModel::FetchPage { delay_s: 0, after: m2.cursor, limit: m2.limit },
            ),
            StepModel::Retry(m2) => (
                CycleModel::Fetching(m2),
                ActionModel::FetchPage {
                    delay_s: PAGE_RETRY_DELAY_S as nat,
                    after: m2.cursor,
                    limit: m2.limit,
                },
            ),
            StepModel::Done(guilds) => {
                if guilds.len() > 0 {
                    (
                        CycleModel::Renaming { guilds, label: fresh_label, next: 0 },
                        ActionModel::Rename {
                            guild_id: guilds[0].id,
                            guild_name: guilds[0].name@,
                            nickname: fresh_label,
                        },
                    )
                } else {
                    (CycleModel::CoolingDown, ActionModel::Presence { label: fresh_label })
                }
            },
            StepModel::Failed(_) => (CycleModel::CoolingDown, ActionModel::CoolDown),
        },
        (CycleModel::Renaming { guilds, label, next }, EventModel::Renamed(out)) => match out {
            Result::Ok(_) => {
                if next + 1 < guilds.len() {
                    (
                        CycleModel::Renaming { guilds, label, next: next + 1 },
                        ActionModel::Rename {
                            guild_id: guilds[next + 1 as int].id,
                            guild_name: guilds[next + 1 as int].name@,
                            nickname: label,
                        },
                    )
                } else {
                    (CycleModel::CoolingDown, ActionModel::Presence { label: fresh_label })
                }
            },
            Result::Err(_) => (CycleModel::CoolingDown, ActionModel::CoolDown),
        },
        _ => (CycleModel::CoolingDown, ActionModel::CoolDown),
    }
}

/// Whether the transition out of `st` on `ev` reads the clock for a fresh
/// date label: entering the renaming pass or the presence pass.
pub open spec fn draws_label(st: CycleModel, ev: EventModel) -> bool {
    match (st, ev) {
        (CycleModel::Fetching(en), EventModel::Page(out)) => enum_step(en, out) matches
            StepModel::Done(_),
        (CycleModel::Renaming { guilds, next, .. }, EventModel::Renamed(out)) => out is Ok
            && !(next + 1 < guilds.len()),
        _ => false,
    }
}

/// Transitions that read no fresh label do not depend on one: whatever the
/// clock would have given, the step is the same. Together with the contract
/// of [`cycle_step`], this pins such a step down completely.
pub proof fn lemma_step_without_label(
    limit: nat,
    st: CycleModel,
    ev: EventModel,
    l1: Seq<char>,
    l2: Seq<char>,
)
    requires
        !draws_label(st, ev),
    ensures
        cycle_spec_step(limit, st, ev, l1) == cycle_spec_step(limit, st, ev, l2),
{
}

/// The state to start the machine in: a pending cooldown, so that the first
/// wake opens the first cycle.
pub fn initial_state() -> (r: CycleState)
    ensures
        r@ == CycleModel::CoolingDown,
        cycle_wf(PAGE_LIMIT as nat, r@),
{
    CycleState::CoolingDown
}

/// Advance the cycle by one event, exactly as [`cycle_spec_step`] says, the
/// fresh date label being whatever the clock gave — fourteen characters,
/// and drawn only on the transitions [`draws_label`] names.
pub fn cycle_step(limit: u32, st: CycleState, ev: Event) -> (r: (CycleState, Action))
    requires
        1 <= limit,
        cycle_wf(limit as nat, st@),
        expects(st@, ev@),
    ensures
        cycle_wf(limit as nat, r.0@),
        exists|l: Seq<char>|
            #![trigger cycle_spec_step(limit as nat, st@, ev@, l)]
            l.len() == LABEL_END - LABEL_START && (r.0@, r.1@) == cycle_spec_step(
                limit as nat,
                st@,
                ev@,
                l,
            ),
{
    let ghost any_label: Seq<char> = Seq::new((LABEL_END - LABEL_START) as nat, |i: int| ' ');
    match st {
        CycleState::CoolingDown => match ev {
            Event::Woke => {
                let en = Enumeration::new(limit);
                let request = en.request();
                proof {
                    assert((CycleModel::Fetching(en@), ActionModel::FetchPage {
                        delay_s: 0,
                        after: None,
                        limit: limit as nat,
                    }) == cycle_spec_step(limit as nat, st@, ev@, any_label));
                }
                (CycleState::Fetching(en), Action::FetchPage { delay_s: 0, request })
            },
            _ => {
                proof {
                    assert(false);
                }
                (CycleState::CoolingDown, Action::CoolDown)
            },
        },
        CycleState::Fetching(en) => match ev {
            Event::Page(out) => {
                match en.on_page(out) {
                    EnumStep::More(en2) => {
                        let request = en2.request();
                        let r = (CycleState::Fetching(en2), Action::FetchPage { delay_s: 0, request });
                        proof {
                            assert((r.0@, r.1@) == cycle_spec_step(
                                limit as nat,
                                st@,
                                ev@,
                                any_label,
                            ));
                        }
                        r
                    },
                    EnumStep::Retry(en2) => {
                        let request = en2.request();
                        let r = (
                            CycleState::Fetching(en2),
                            Action::FetchPage { delay_s: PAGE_RETRY_DELAY_S, request },
                        );
                        proof {
                            assert((r.0@, r.1@) == cycle_spec_step(
                                limit as nat,
                                st@,
                                ev@,
                                any_label,
                            ));
                        }
                        r
                    },
                    EnumStep::Done(guilds) => {
                        let label = current_date_label();
                        let ghost fresh = label@;
                        if guilds.len() > 0 {
                            let guild_id = guilds[0].id;
                            let guild_name = guilds[0].name.clone();
                            let nickname = label.clone();
                            let r = (
                                CycleState::Renaming { guilds, label, next: 0 },
                                Action::Rename { guild_id, guild_name, nickname },
                            );
                            proof {
                                assert((r.0@, r.1@) == cycle_spec_step(
                                    limit as nat,
                                    st@,
                                    ev@,
                                    fresh,
                                ));
                            }
                            r
                        } else {
                            let r = (CycleState::CoolingDown, Action::Presence { label });
                            proof {
                                assert((r.0@, r.1@) == cycle_spec_step(
                                    limit as nat,
                                    st@,
                                    ev@,
                                    fresh,
                                ));
                            }
                            r
                        }
                    },
                    EnumStep::Failed(_) => {
                        let r = (CycleState::CoolingDown, Action::CoolDown);
                        proof {
                            assert((r.0@, r.1@) == cycle_spec_step(
                                limit as nat,
                                st@,
                                ev@,
                                any_label,
                            ));
                        }
                        r
                    },
                }
            },
            _ => {
                proof {
                    assert(false);
                }
                (CycleState::CoolingDown, Action::CoolDown)
            },
        },
        CycleState::Renaming { guilds, label, next } => match ev {
            Event::Renamed(out) => {
                let n = guilds.len();
                match out {
                    Result::Ok(_) => {
                        if next + 1 < n {
                            let guild_id = guilds[next + 1].id;
                            let guild_name = guilds[next + 1].name.clone();
                            let nickname = label.clone();
                            let r = (
                                CycleState::Renaming { guilds, label, next: next + 1 },
                                Action::Rename { guild_id, guild_name, nickname },
                            );
                            proof {
                                assert((r.0@, r.1@) == cycle_spec_step(
                                    limit as nat,
                                    st@,
                                    ev@,
                                    any_label,
                                ));
                            }
                            r
                        } else {
                            let fresh = current_date_label();
                            let ghost fresh_model = fresh@;
                            let r = (CycleState::CoolingDown, Action::Presence { label: fresh });
                            proof {
                                assert((r.0@, r.1@) == cycle_spec_step(
                                    limit as nat,
                                    st@,
                                    ev@,
                                    fresh_model,
                                ));
                            }
                            r
                        }
                    },
                    Result::Err(_) => {
                        let r = (CycleState::CoolingDown, Action::CoolDown);
                        proof {
                            assert((r.0@, r.1@) == cycle_spec_step(
                                limit as nat,
                                st@,
                                ev@,
                                any_label,
                            ));
                        }
                        r
                    },
                }
            },
            _ => {
                proof {
                    assert(false);
                }
                (CycleState::CoolingDown, Action::CoolDown)
            },
        },
    }
}

/// The presence pass of a completed cycle, fanned out: one update per active
/// shard, in the order the shard indices are given, each carrying the same
/// label.
pub fn presence_updates(shards: &Vec<u32>, label: &str) -> (r: Vec<(u32, String)>)
    ensures
        r@.len() == shards@.len(),
        forall|i: int|
            0 <= i < r@.len() ==> (#[trigger] r@[i]).0 == shards@[i] && r@[i].1@ == label@,
{
    let mut out: Vec<(u32, String)> = Vec::new();
    let mut k: usize = 0;
    while k < shards.len()
        invariant
            k <= shards@.len(),
            out@.len() == k,
            forall|i: int|
                0 <= i < k ==> (#[trigger] out@[i]).0 == shards@[i] && out@[i].1@ == label@,
        decreases shards@.len() - k,
    {
        out.push((shards[k], label.to_owned()));
        k = k + 1;
    }
    out
}

/// The remote meaning of one successful nickname update: the bot's nickname
/// in that guild becomes the label; every other guild is untouched.
pub open spec fn apply_rename(
    nicknames: Map<u64, Seq<char>>,
    guild_id: u64,
    nickname: Seq<char>,
) -> Map<u64, Seq<char>> {
    nicknames.insert(guild_id, nickname)
}

/// Idempotence: applying the same date-label update twice in immediate
/// succession to the same guild leaves the same end state — the same final
/// nickname everywhere — as applying it once.
pub proof fn lemma_rename_idempotent(
    nicknames: Map<u64, Seq<char>>,
    guild_id: u64,
    nickname: Seq<char>,
)
    ensures
        apply_rename(apply_rename(nicknames, guild_id, nickname), guild_id, nickname)
            == apply_rename(nicknames, guild_id, nickname),
{
    assert(apply_rename(apply_rename(nicknames, guild_id, nickname), guild_id, nickname)
        =~= apply_rename(nicknames, guild_id, nickname));
}

/// Cycle restart on partial failure: a failed nickname update ends the
/// renaming pass at once — no later guild of that cycle is asked for, only
/// the cooldown follows — and the wake that ends the cooldown starts a fresh
/// enumeration from the beginning of the collection with a full retry
/// budget, so every guild is re-attempted, the already renamed ones
/// included.
pub proof fn lemma_cycle_restart(
    limit: nat,
    guilds: Seq<GuildSummary>,
    label: Seq<char>,
    next: nat,
    e: ApiError,
    l1: Seq<char>,
    l2: Seq<char>,
)
    ensures
        cycle_spec_step(
            limit,
            CycleModel::Renaming { guilds, label, next },
            EventModel::Renamed(Result::Err(e)),
            l1,
        ) == (CycleModel::CoolingDown, ActionModel::CoolDown),
        cycle_spec_step(limit, CycleModel::CoolingDown, EventModel::Woke, l2) == (
            CycleModel::Fetching(EnumModel::init(limit)),
            ActionModel::FetchPage { delay_s: 0, after: None, limit },
        ),
{
}

} // verus!
