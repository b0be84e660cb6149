//! Collecting a machine's hardware profile, step by step.
//!
//! A [`HardwareCollection`] says what to ask of the machine or of the store
//! next; the caller asks, and hands the reply to [`HardwareCollection::step`].

use std::sync::Arc;
use vstd::prelude::*;
use crate::hardware::{HardwareProfile, ProfileError};

verus! {

/// Which figures a profile is made of.
#[derive(Debug, Clone, Copy, PartialEq, Eq, Structural)]
pub enum ProfileRules {
    /// Those of the machine as a whole.
    Machine,
    /// Those of its parts.
    Parts,
}

/// Why a collection ended without a profile.
#[derive(Debug)]
pub enum CollectionError<E> {
    /// The machine or the store failed.
    Outside(E),
    /// The report could not be read.
    Report(ProfileError),
    /// The totals of the report leave their types.
    TotalsOutOfRange,
}

/// How far a collection has come.
#[derive(Debug)]
pub enum CollectionPhase<E> {
    /// The tool has to be there first.
    Install,
    /// The tool has to be run.
    Report,
    /// The profile has to be stored.
    Store(HardwareProfile),
    /// The profile is stored.
    Stored(HardwareProfile),
    /// Something failed.
    Failed(CollectionError<E>),
}

/// What a collection asks for.
#[derive(Debug)]
pub enum CollectionRequest<'a> {
    /// Make sure that a command is installed, from a package if need be.
    EnsureInstalled { command: &'static str, package: &'static str },
    /// Run a command and capture its output.
    Execute { command: &'static str },
    /// Store the profile of an executor.
    Store { miner_uid: u16, executor_id: &'a str, profile: &'a HardwareProfile },
}

/// What came of a request.
#[derive(Debug)]
pub enum CollectionReply<E> {
    /// It was done.
    Done,
    /// The command printed this.
    Output(String),
    /// It failed.
    Failed(E),
}

/// A collection under way.
#[derive(Debug)]
pub struct HardwareCollection<E> {
    pub executor_id: String,
    pub miner_uid: u16,
    pub rules: ProfileRules,
    pub phase: CollectionPhase<E>,
}

/// The command whose output a collection reads. The figures of the machine as
/// a whole are taken from a report without serial numbers and the like.
pub open spec fn report_command(rules: ProfileRules) -> Seq<char> {
    match rules {
        ProfileRules::Machine => "sudo lshw -json -quiet -sanitize"@,
        ProfileRules::Parts => "sudo lshw -json -quiet"@,
    }
}

/// Whether `phase` is where the output of the report command leads: to a
/// profile to store, or to the failure that the text deserves.
pub open spec fn after_report<E>(
    rules: ProfileRules,
    text: Seq<char>,
    phase: CollectionPhase<E>,
) -> bool {
    match crate::json_source::json_document(text) {
        Ok(document) => {
            let (fit, profile) = match rules {
                ProfileRules::Machine => (
                    crate::hardware::machine_totals_fit(document),
                    crate::hardware::machine_profile(document, text),
                ),
                ProfileRules::Parts => (
                    crate::hardware::component_totals_fit(document),
                    crate::hardware::component_profile(document, text),
                ),
            };
            if fit {
                phase matches CollectionPhase::Store(drawn) && drawn@ == profile
            } else {
                phase == CollectionPhase::Failed(CollectionError::<E>::TotalsOutOfRange)
            }
        },
        Err(cause) => {
            &&& phase matches CollectionPhase::Failed(CollectionError::Report(error))
            &&& error.message@ == crate::hardware::parse_failure(cause)
        },
    }
}

/// Whether a reply takes a collection from one phase to another. A reply to
/// no open request changes nothing.
pub open spec fn collection_steps<E>(
    rules: ProfileRules,
    before: CollectionPhase<E>,
    reply: CollectionReply<E>,
    after: CollectionPhase<E>,
) -> bool {
    match (before, reply) {
        (CollectionPhase::Install, CollectionReply::Done) => after is Report,
        (CollectionPhase::Report, CollectionReply::Output(text)) => after_report(
            rules,
            text@,
            after,
        ),
        (CollectionPhase::Store(profile), CollectionReply::Done) => after
            == CollectionPhase::<E>::Stored(profile),
        (CollectionPhase::Install, CollectionReply::Failed(e)) => after
            == CollectionPhase::Failed(CollectionError::Outside(e)),
        (CollectionPhase::Report, CollectionReply::Failed(e)) => after
            == CollectionPhase::Failed(CollectionError::Outside(e)),
        (CollectionPhase::Store(_), CollectionReply::Failed(e)) => after
            == CollectionPhase::Failed(CollectionError::Outside(e)),
        _ => after == before,
    }
}

fn phase_after_report<E>(rules: ProfileRules, text: &str) -> (r: CollectionPhase<E>)
    ensures
        after_report(rules, text@, r),
{
    let drawn = match rules {
        ProfileRules::Machine => HardwareProfile::checked_from_lshw_json(text),
        ProfileRules::Parts => HardwareProfile::checked_parse_lshw_output(text),
    };
    match drawn {
        Some(Ok(profile)) => CollectionPhase::Store(profile),
        Some(Err(error)) => CollectionPhase::Failed(CollectionError::Report(error)),
        None => CollectionPhase::Failed(CollectionError::TotalsOutOfRange),
    }
}

impl<E> HardwareCollection<E> {
    /// Starts a collection.
    pub fn start(executor_id: &str, miner_uid: u16, rules: ProfileRules) -> (r: Self)
        ensures
            r.executor_id@ == executor_id@,
            r.miner_uid == miner_uid,
            r.rules == rules,
            r.phase is Install,
    {
        HardwareCollection {
            executor_id: executor_id.to_owned(),
            miner_uid,
            rules,
            phase: CollectionPhase::Install,
        }
    }

    /// What has to be asked next; nothing once the collection has ended.
    pub fn request(&self) -> (r: Option<CollectionRequest<'_>>)
        ensures
            match self.phase {
                CollectionPhase::Install => {
                    &&& r matches Some(CollectionRequest::EnsureInstalled { command, package })
                    &&& command@ == "lshw"@
                    &&& package@ == "lshw"@
                },
                CollectionPhase::Report => {
                    &&& r matches Some(CollectionRequest::Execute { command })
                    &&& command@ == report_command(self.rules)
                },
                CollectionPhase::Store(held) => {
                    &&& r matches Some(CollectionRequest::Store { miner_uid, executor_id, profile })
                    &&& miner_uid == self.miner_uid
                    &&& executor_id@ == self.executor_id@
                    &&& *profile == held
                },
                _ => r is None,
            },
    {
        match &self.phase {
            CollectionPhase::Install => Some(
                CollectionRequest::EnsureInstalled { command: "lshw", package: "lshw" },
            ),
            CollectionPhase::Report => match self.rules {
                ProfileRules::Machine => Some(
                    CollectionRequest::Execute { command: "sudo lshw -json -quiet -sanitize" },
                ),
                ProfileRules::Parts => Some(
                    CollectionRequest::Execute { command: "sudo lshw -json -quiet" },
                ),
            },
            CollectionPhase::Store(profile) => Some(
                CollectionRequest::Store {
                    miner_uid: self.miner_uid,
                    executor_id: self.executor_id.as_str(),
                    profile,
                },
            ),
            _ => None,
        }
    }

    /// Takes the reply to the open request.
    pub fn step(self, reply: CollectionReply<E>) -> (r: Self)
        ensures
            r.executor_id == self.executor_id,
            r.miner_uid == self.miner_uid,
            r.rules == self.rules,
            collection_steps(self.rules, self.phase, reply, r.phase),
    {
        let HardwareCollection { executor_id, miner_uid, rules, phase } = self;
        let phase = match (phase, reply) {
            (CollectionPhase::Install, CollectionReply::Done) => CollectionPhase::Report,
            (CollectionPhase::Report, CollectionReply::Output(text)) => phase_after_report(
                rules,
                text.as_str(),
            ),
            (CollectionPhase::Store(profile), CollectionReply::Done) => CollectionPhase::Stored(
                profile,
            ),
            (CollectionPhase::Install, CollectionReply::Failed(e)) => CollectionPhase::Failed(
                CollectionError::Outside(e),
            ),
            (CollectionPhase::Report, CollectionReply::Failed(e)) => CollectionPhase::Failed(
                CollectionError::Outside(e),
            ),
            (CollectionPhase::Store(_), CollectionReply::Failed(e)) => CollectionPhase::Failed(
                CollectionError::Outside(e),
            ),
            (phase, _) => phase,
        };
        HardwareCollection { executor_id, miner_uid, rules, phase }
    }

    /// How the collection ended, or the collection itself if it has not.
    pub fn outcome(self) -> (r: Result<Result<HardwareProfile, CollectionError<E>>, Self>)
        ensures
            match self.phase {
                CollectionPhase::Stored(profile) => r == Ok::<_, Self>(
                    Ok::<HardwareProfile, CollectionError<E>>(profile),
                ),
                CollectionPhase::Failed(error) => r == Ok::<_, Self>(
                    Err::<HardwareProfile, CollectionError<E>>(error),
                ),
                _ => r == Err::<Result<HardwareProfile, CollectionError<E>>, Self>(self),
            },
    {
        let HardwareCollection { executor_id, miner_uid, rules, phase } = self;
        match phase {
            CollectionPhase::Stored(profile) => Ok(Ok(profile)),
            CollectionPhase::Failed(error) => Ok(Err(error)),
            phase => Err(HardwareCollection { executor_id, miner_uid, rules, phase }),
        }
    }
}

/// Hardware collector for gathering hardware profiles from executors.
pub struct HardwareCollector<C, P> {
    pub ssh_client: Arc<C>,
    pub persistence: Arc<P>,
}

impl<C, P> HardwareCollector<C, P> {
    /// Create a new hardware collector.
    pub fn new(ssh_client: Arc<C>, persistence: Arc<P>) -> (r: Self)
        ensures
            r.ssh_client == ssh_client,
            r.persistence == persistence,
    {
        HardwareCollector { ssh_client, persistence }
    }

    /// Collect hardware profile from executor and store in database: the
    /// collection that does so, at its beginning.
    pub fn collect_and_store<E>(&self, executor_id: &str, miner_uid: u16) -> (r: HardwareCollection<
        E,
    >)
        ensures
            r.executor_id@ == executor_id@,
            r.miner_uid == miner_uid,
            r.rules == ProfileRules::Machine,
            r.phase is Install,
    {
        HardwareCollection::start(executor_id, miner_uid, ProfileRules::Machine)
    }

    /// Collect hardware profile with error handling (non-critical operation):
    /// what is left of a collection when its failure does not matter.
    pub fn collect_with_fallback<E>(&self, collected: Result<HardwareProfile, E>) -> (r: Option<
        HardwareProfile,
    >)
        ensures
            r == (match collected {
                Ok(profile) => Some(profile),
                Err(_) => None,
            }),
    {
        match collected {
            Ok(profile) => Some(profile),
            Err(_) => None,
        }
    }
}

/// What is stored, and what a collection hands back, is the profile that the
/// rules draw from the report, and nothing else.
pub proof fn law_stored_profile_is_the_reported_one<E>(
    rules: ProfileRules,
    text: String,
    read: CollectionPhase<E>,
    done: CollectionPhase<E>,
)
    requires
        collection_steps(rules, CollectionPhase::<E>::Report, CollectionReply::Output(text), read),
        collection_steps(rules, read, CollectionReply::<E>::Done, done),
        done is Stored,
    ensures
        crate::json_source::json_document(text@) is Ok,
        ({
            let document = crate::json_source::json_document(text@)->Ok_0;
            &&& read matches CollectionPhase::Store(profile)
            &&& done == CollectionPhase::<E>::Stored(profile)
            &&& profile@ == (match rules {
                ProfileRules::Machine => crate::hardware::machine_profile(document, text@),
                ProfileRules::Parts => crate::hardware::component_profile(document, text@),
            })
            &&& profile.full_json@ == text@
        }),
{
}

/// A collection that has failed, or has stored its profile, stays so.
pub proof fn law_collection_end_is_final<E>(
    rules: ProfileRules,
    end: CollectionPhase<E>,
    reply: CollectionReply<E>,
    after: CollectionPhase<E>,
)
    requires
        end is Stored || end is Failed,
        collection_steps(rules, end, reply, after),
    ensures
        after == end,
{
}

/// Nothing is stored of a report that cannot be read.
pub proof fn law_unreadable_report_fails<E>(
    rules: ProfileRules,
    text: String,
    after: CollectionPhase<E>,
)
    requires
        crate::json_source::json_document(text@) is Err,
        collection_steps(rules, CollectionPhase::<E>::Report, CollectionReply::Output(text), after),
    ensures
        after is Failed,
{
}

/// Whether a reply answers the request that is open in a phase.
pub open spec fn answers_collection<E>(
    phase: CollectionPhase<E>,
    reply: CollectionReply<E>,
) -> bool {
    match phase {
        CollectionPhase::Install => reply is Done || reply is Failed,
        CollectionPhase::Report => reply is Output || reply is Failed,
        CollectionPhase::Store(_) => reply is Done || reply is Failed,
        _ => false,
    }
}

/// How many requests can still be answered in a phase.
pub open spec fn collection_requests_left<E>(phase: CollectionPhase<E>) -> nat {
    match phase {
        CollectionPhase::Install => 3,
        CollectionPhase::Report => 2,
        CollectionPhase::Store(_) => 1,
        _ => 0,
    }
}

/// Every answer brings a collection nearer to its end: after three answers at
/// most it has stored its profile or failed.
pub proof fn law_answers_end_a_collection<E>(
    rules: ProfileRules,
    before: CollectionPhase<E>,
    reply: CollectionReply<E>,
    after: CollectionPhase<E>,
)
    requires
        answers_collection(before, reply),
        collection_steps(rules, before, reply, after),
    ensures
        collection_requests_left(before) <= 3,
        collection_requests_left(after) < collection_requests_left(before),
        collection_requests_left(after) == 0 <==> after is Stored || after is Failed,
{
}

/// A reply moves a collection on only if it answers the open request, and it
/// changes nothing but how far the collection has come. A failure ends it with
/// the cause; what is done leads from the tool to the report, and from the
/// profile to its being stored, unchanged.
pub proof fn law_replies_move_a_collection<E>(
    before: HardwareCollection<E>,
    reply: CollectionReply<E>,
    after: HardwareCollection<E>,
)
    requires
        call_ensures(HardwareCollection::<E>::step, (before, reply), after),
    ensures
        after.executor_id@ == before.executor_id@,
        after.miner_uid == before.miner_uid,
        after.rules == before.rules,
        !answers_collection(before.phase, reply) ==> after.phase == before.phase,
        !(before.phase is Stored || before.phase is Failed) ==> (
        reply matches CollectionReply::Failed(cause) ==> after.phase == CollectionPhase::<
            E,
        >::Failed(CollectionError::Outside(cause))),
        before.phase is Install && reply is Done ==> after.phase is Report,
        before.phase matches CollectionPhase::Store(profile) ==> (reply is Done ==> after.phase
            == CollectionPhase::<E>::Stored(profile)),
{
}

/// What a collection makes of a report is what the rules of hardware profiles
/// make of its text: the profile to store, the reason why there is none, or
/// that totals leave their types.
pub proof fn law_report_is_drawn_by_the_rules<E>(
    before: HardwareCollection<E>,
    text: String,
    chars: &str,
    whole: Option<Result<HardwareProfile, ProfileError>>,
    parts: Option<Result<HardwareProfile, ProfileError>>,
    after: HardwareCollection<E>,
)
    requires
        before.phase is Report,
        chars@ == text@,
        call_ensures(HardwareProfile::checked_from_lshw_json, (chars,), whole),
        call_ensures(HardwareProfile::checked_parse_lshw_output, (chars,), parts),
        call_ensures(
            HardwareCollection::<E>::step,
            (before, CollectionReply::Output(text)),
            after,
        ),
    ensures
        ({
            let drawn = if before.rules == ProfileRules::Machine {
                whole
            } else {
                parts
            };
            &&& drawn is None ==> after.phase == CollectionPhase::<E>::Failed(
                CollectionError::TotalsOutOfRange,
            )
            &&& drawn matches Some(Ok(profile)) ==> after.phase matches CollectionPhase::Store(held)
                && held@ == profile@
            &&& drawn matches Some(Err(error)) ==> after.phase matches CollectionPhase::Failed(
                CollectionError::Report(cause),
            ) && cause.message@ == error.message@
        }),
{
}

/// A collection asks for the tool, for its report, and for the profile to be
/// stored under its own executor and miner; it has ended exactly if it asks for
/// nothing more, with the stored profile or with what failed.
pub proof fn law_collection_asks_until_it_ends<'a, E>(
    collection: &'a HardwareCollection<E>,
    asked: Option<CollectionRequest<'a>>,
    outcome: Result<Result<HardwareProfile, CollectionError<E>>, HardwareCollection<E>>,
)
    requires
        call_ensures(HardwareCollection::<E>::request, (collection,), asked),
        call_ensures(HardwareCollection::<E>::outcome, (*collection,), outcome),
    ensures
        asked is None <==> outcome is Ok,
        outcome is Ok <==> collection.phase is Stored || collection.phase is Failed,
        outcome matches Ok(Ok(profile)) ==> collection.phase == CollectionPhase::<E>::Stored(
            profile,
        ),
        outcome matches Ok(Err(error)) ==> collection.phase == CollectionPhase::<E>::Failed(error),
        outcome matches Err(same) ==> same == *collection,
        collection.phase is Install ==> {
            &&& asked matches Some(CollectionRequest::EnsureInstalled { command, package })
            &&& command@ == "lshw"@
            &&& package@ == "lshw"@
        },
        collection.phase is Report ==> {
            &&& asked matches Some(CollectionRequest::Execute { command })
            &&& command@ == (if collection.rules == ProfileRules::Machine {
                "sudo lshw -json -quiet -sanitize"@
            } else {
                "sudo lshw -json -quiet"@
            })
        },
        collection.phase matches CollectionPhase::Store(held) ==> {
            &&& asked matches Some(CollectionRequest::Store { miner_uid, executor_id, profile })
            &&& miner_uid == collection.miner_uid
            &&& executor_id@ == collection.executor_id@
            &&& *profile == held
        },
{
}

/// A collector begins with the tool and with the figures of the machine as a
/// whole, and where a failure does not matter it leaves no profile.
pub proof fn law_collector_begins_and_falls_back<C, P, E>(
    collector: HardwareCollector<C, P>,
    executor_id: &str,
    miner_uid: u16,
    start: HardwareCollection<E>,
    collected: Result<HardwareProfile, E>,
    left: Option<HardwareProfile>,
)
    requires
        call_ensures(
            HardwareCollector::<C, P>::collect_and_store::<E>,
            (&collector, executor_id, miner_uid),
            start,
        ),
        call_ensures(
            HardwareCollector::<C, P>::collect_with_fallback::<E>,
            (&collector, collected),
            left,
        ),
    ensures
        start.executor_id@ == executor_id@,
        start.miner_uid == miner_uid,
        start.rules == ProfileRules::Machine,
        start.phase is Install,
        left is Some <==> collected is Ok,
        left matches Some(profile) ==> collected == Ok::<HardwareProfile, E>(profile),
{
}

/// A collector works with the connection and the store that it was made of, and
/// a collection starts with the tool, by the rules that were asked for.
pub proof fn law_collector_is_made_of_its_parts<C, P, E>(
    ssh_client: Arc<C>,
    persistence: Arc<P>,
    r: HardwareCollector<C, P>,
    executor_id: &str,
    miner_uid: u16,
    rules: ProfileRules,
    start: HardwareCollection<E>,
)
    requires
        call_ensures(HardwareCollector::<C, P>::new, (ssh_client, persistence), r),
        call_ensures(HardwareCollection::<E>::start, (executor_id, miner_uid, rules), start),
    ensures
        r.ssh_client == ssh_client,
        r.persistence == persistence,
        start.executor_id@ == executor_id@,
        start.miner_uid == miner_uid,
        start.rules == rules,
        start.phase is Install,
{
}

} // verus!
