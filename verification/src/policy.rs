//! The factory of the policy store that keeps the output device of each
//! process: how it is acquired, how its method table is laid out, and what
//! a routing request writes to it.
//!
//! The interface of the factory is not published. Which identifier a
//! system knows depends on its version, so the identifiers are tried from
//! the newest to the oldest; and its methods are reached by their position
//! in the method table, which this module describes.

use vstd::prelude::*;
use crate::error::AudioError;

verus! {

/// Identifier of the interface on current systems.
pub const IID_21H2: u128 = 0xab3d4648_e242_459f_b02f_541c70306324;

/// Identifier of the interface on older systems.
pub const IID_DOWNLEVEL: u128 = 0x2a59116d_6c4f_45e0_a74f_707e3fef9258;

/// The direction of playback.
pub const FLOW_RENDER: i32 = 0;

/// Whether a status of the remote subsystem reports success: it is not
/// negative.
pub open spec fn succeeded(status: i32) -> bool {
    status >= 0
}

/// What the remote subsystem answered to an activation or to a query for
/// an interface.
#[derive(Clone, Copy, Debug, PartialEq, Eq, Structural)]
pub struct QueryOutcome {
    /// The status that the call returned.
    pub status: i32,
    /// Whether the call handed out a null pointer.
    pub is_null: bool,
}

impl QueryOutcome {
    /// Whether the call succeeded and handed out an object.
    pub open spec fn spec_is_usable(self) -> bool {
        succeeded(self.status) && !self.is_null
    }

    /// Whether the call succeeded and handed out an object.
    #[verifier::when_used_as_spec(spec_is_usable)]
    pub fn is_usable(self) -> (r: bool)
        ensures
            r == self.spec_is_usable(),
    {
        self.status >= 0 && !self.is_null
    }
}

/// What the acquisition asks of the embedding program next.
#[derive(Clone, Copy, Debug, PartialEq, Eq, Structural)]
pub enum Step {
    /// Request the activation factory of the class.
    Activate,
    /// Query the activated object for the interface with this identifier.
    Query(u128),
    /// Nothing more: the acquisition has ended.
    Finished,
}

/// The state of an acquisition.
pub struct AcquisitionView {
    /// The identifiers to try, in the order in which they are tried.
    pub candidates: Seq<u128>,
    /// The answer to the activation, once it was recorded.
    pub activation: Option<QueryOutcome>,
    /// The answers to the queries made so far, one for each candidate tried.
    pub queries: Seq<QueryOutcome>,
}

impl AcquisitionView {
    /// An acquisition that has asked for nothing yet.
    pub open spec fn started(candidates: Seq<u128>) -> AcquisitionView {
        AcquisitionView { candidates, activation: None, queries: Seq::empty() }
    }

    /// No query was made before a usable activation, no more queries than
    /// candidates, and none after a query that succeeded.
    pub open spec fn wf(self) -> bool {
        &&& self.queries.len() <= self.candidates.len()
        &&& self.queries.len() > 0 ==> self.activation is Some
            && self.activation->Some_0.spec_is_usable()
        &&& forall|j: int| 0 <= j < self.queries.len() - 1 ==> !succeeded(self.queries[j].status)
    }

    /// What is asked next: the activation first; then, while no query has
    /// succeeded, the next candidate; nothing once the activation has
    /// failed, a query has succeeded, or the candidates are used up.
    pub open spec fn next_step(self) -> Step {
        match self.activation {
            None => Step::Activate,
            Some(activation) => if !activation.spec_is_usable() {
                Step::Finished
            } else if self.queries.len() > 0 && succeeded(self.queries.last().status) {
                Step::Finished
            } else if self.queries.len() < self.candidates.len() {
                Step::Query(self.candidates[self.queries.len() as int])
            } else {
                Step::Finished
            },
        }
    }

    /// The state after an answer: it answers what was asked, and is
    /// dropped where nothing was.
    pub open spec fn recorded(self, outcome: QueryOutcome) -> AcquisitionView {
        match self.next_step() {
            Step::Activate => AcquisitionView { activation: Some(outcome), ..self },
            Step::Query(_) => AcquisitionView { queries: self.queries.push(outcome), ..self },
            Step::Finished => self,
        }
    }

    /// The state after a run of answers, each recorded in its turn.
    pub open spec fn fed(self, answers: Seq<QueryOutcome>) -> AcquisitionView
        decreases answers.len(),
    {
        if answers.len() == 0 {
            self
        } else {
            self.fed(answers.drop_last()).recorded(answers.last())
        }
    }

    /// What was reached: the interface of the candidate whose query succeeded
    /// with an object; no activation where the activation is missing or
    /// unusable; no compatible interface otherwise.
    pub open spec fn reached(self) -> Result<u128, AudioError> {
        match self.activation {
            None => Err(AudioError::ActivationFailed),
            Some(activation) => if !activation.spec_is_usable() {
                Err(AudioError::ActivationFailed)
            } else if 0 < self.queries.len() <= self.candidates.len()
                && self.queries.last().spec_is_usable() {
                Ok(self.candidates[self.queries.len() - 1])
            } else {
                Err(AudioError::NoCompatibleInterface)
            },
        }
    }
}

/// The acquisition of the factory, step by step: the embedding program
/// asks for the next step, performs it, and records the answer.
#[derive(Debug)]
pub struct Acquisition {
    candidates: Vec<u128>,
    activation: Option<QueryOutcome>,
    queries: Vec<QueryOutcome>,
}

impl View for Acquisition {
    type V = AcquisitionView;

    closed spec fn view(&self) -> AcquisitionView {
        AcquisitionView {
            candidates: self.candidates@,
            activation: self.activation,
            queries: self.queries@,
        }
    }
}

/// The name of the class whose activation factory is acquired.
pub fn class_identifier() -> (name: &'static str)
    ensures
        name@ == "Windows.Media.Internal.AudioPolicyConfig"@,
{
    "Windows.Media.Internal.AudioPolicyConfig"
}

/// The identifiers of the interface, the newest first.
pub fn interface_candidates() -> (candidates: Vec<u128>)
    ensures
        candidates@ == seq![IID_21H2, IID_DOWNLEVEL],
{
    let mut candidates: Vec<u128> = Vec::new();
    candidates.push(IID_21H2);
    candidates.push(IID_DOWNLEVEL);
    assert(candidates@ =~= seq![IID_21H2, IID_DOWNLEVEL]);
    candidates
}

impl Acquisition {
    /// Starts an acquisition that tries `candidates` in their order.
    pub fn new(candidates: Vec<u128>) -> (a: Acquisition)
        ensures
            a@ == AcquisitionView::started(candidates@),
            a@.wf(),
    {
        Acquisition { candidates, activation: None, queries: Vec::new() }
    }

    /// What to do next.
    pub fn next_step(&self) -> (step: Step)
        ensures
            step == self@.next_step(),
    {
        match self.activation {
            None => Step::Activate,
            Some(activation) => {
                let tried: usize = self.queries.len();
                if !activation.is_usable() {
                    Step::Finished
                } else if tried > 0 && self.queries[tried - 1].status >= 0 {
                    Step::Finished
                } else if tried < self.candidates.len() {
                    Step::Query(self.candidates[tried])
                } else {
                    Step::Finished
                }
            },
        }
    }

    /// Records the answer to the step that was asked last. An answer that
    /// was not asked for is dropped.
    pub fn record(&mut self, outcome: QueryOutcome)
        ensures
            final(self)@ == old(self)@.recorded(outcome),
            old(self)@.wf() ==> final(self)@.wf(),
    {
        match self.next_step() {
            Step::Activate => {
                self.activation = Some(outcome);
            },
            Step::Query(_) => {
                self.queries.push(outcome);
            },
            Step::Finished => {},
        }
    }

    /// The number of candidates that were queried.
    pub fn attempts(&self) -> (n: usize)
        ensures
            n == self@.queries.len(),
    {
        self.queries.len()
    }
}

/// The factory of the policy store, reached through one of its interfaces.
#[derive(Clone, Copy, Debug, PartialEq, Eq, Structural)]
pub struct AudioPolicyConfigFactory {
    /// Identifier of the interface that the remote object granted.
    pub interface: u128,
}

impl AudioPolicyConfigFactory {
    /// The factory that an acquisition has reached. An acquisition whose
    /// activation failed or is missing gives [`AudioError::ActivationFailed`];
    /// one without a candidate that the remote object granted gives
    /// [`AudioError::NoCompatibleInterface`].
    pub fn new(acquisition: &Acquisition) -> (r: Result<AudioPolicyConfigFactory, AudioError>)
        ensures
            match acquisition@.reached() {
                Ok(interface) => r == Ok::<AudioPolicyConfigFactory, AudioError>(
                    AudioPolicyConfigFactory { interface },
                ),
                Err(e) => r == Err::<AudioPolicyConfigFactory, AudioError>(e),
            },
    {
        match acquisition.activation {
            None => Err(AudioError::ActivationFailed),
            Some(activation) => {
                let tried: usize = acquisition.queries.len();
                if !activation.is_usable() {
                    Err(AudioError::ActivationFailed)
                } else if tried > 0 && tried <= acquisition.candidates.len()
                    && acquisition.queries[tried - 1].is_usable() {
                    Ok(AudioPolicyConfigFactory { interface: acquisition.candidates[tried - 1] })
                } else {
                    Err(AudioError::NoCompatibleInterface)
                }
            },
        }
    }
}

/// The methods of the factory, in the order of its method table.
#[derive(Clone, Copy, Debug, PartialEq, Eq, Structural)]
pub enum PolicyMethod {
    /// Identity query.
    QueryInterface,
    /// Reference counting: one more reference.
    AddRef,
    /// Reference counting: one reference less.
    Release,
    /// Runtime-type introspection: the interfaces of the object.
    GetIids,
    /// Runtime-type introspection: the name of the class.
    GetRuntimeClassName,
    /// Runtime-type introspection: the trust level.
    GetTrustLevel,
    /// A method that is never called and only takes its slot.
    Stub1,
    /// A method that is never called and only takes its slot.
    Stub2,
    /// A method that is never called and only takes its slot.
    Stub3,
    /// Stores the output device of a process for one role.
    SetPersistedDefaultAudioEndpoint,
    /// Reads the stored output device of a process for one role.
    GetPersistedDefaultAudioEndpoint,
    /// Forgets the stored output devices of all processes.
    ClearAllPersistedApplicationDefaultEndpoints,
}

/// The position of a method in the method table.
pub open spec fn slot_of(method: PolicyMethod) -> usize {
    match method {
        PolicyMethod::QueryInterface => 0,
        PolicyMethod::AddRef => 1,
        PolicyMethod::Release => 2,
        PolicyMethod::GetIids => 3,
        PolicyMethod::GetRuntimeClassName => 4,
        PolicyMethod::GetTrustLevel => 5,
        PolicyMethod::Stub1 => 6,
        PolicyMethod::Stub2 => 7,
        PolicyMethod::Stub3 => 8,
        PolicyMethod::SetPersistedDefaultAudioEndpoint => 9,
        PolicyMethod::GetPersistedDefaultAudioEndpoint => 10,
        PolicyMethod::ClearAllPersistedApplicationDefaultEndpoints => 11,
    }
}

/// The number of methods in the method table.
pub const SLOT_COUNT: usize = 12;

/// The layout of the method table of the factory.
#[derive(Clone, Copy, Debug)]
pub struct IAudioPolicyConfigFactoryVtable {
    /// The size of a pointer of the system, in bytes.
    pub pointer_size: u32,
}

impl IAudioPolicyConfigFactoryVtable {
    /// The position of `method` in the table.
    pub fn slot(method: PolicyMethod) -> (slot: usize)
        ensures
            slot == slot_of(method),
            slot < SLOT_COUNT,
    {
        match method {
            PolicyMethod::QueryInterface => 0,
            PolicyMethod::AddRef => 1,
            PolicyMethod::Release => 2,
            PolicyMethod::GetIids => 3,
            PolicyMethod::GetRuntimeClassName => 4,
            PolicyMethod::GetTrustLevel => 5,
            PolicyMethod::Stub1 => 6,
            PolicyMethod::Stub2 => 7,
            PolicyMethod::Stub3 => 8,
            PolicyMethod::SetPersistedDefaultAudioEndpoint => 9,
            PolicyMethod::GetPersistedDefaultAudioEndpoint => 10,
            PolicyMethod::ClearAllPersistedApplicationDefaultEndpoints => 11,
        }
    }

    /// The method at position `slot` of the table.
    pub fn method_at(slot: usize) -> (r: Option<PolicyMethod>)
        ensures
            slot < SLOT_COUNT ==> r is Some && slot_of(r->Some_0) == slot,
            slot >= SLOT_COUNT ==> r is None,
    {
        if slot == 0 {
            Some(PolicyMethod::QueryInterface)
        } else if slot == 1 {
            Some(PolicyMethod::AddRef)
        } else if slot == 2 {
            Some(PolicyMethod::Release)
        } else if slot == 3 {
            Some(PolicyMethod::GetIids)
        } else if slot == 4 {
            Some(PolicyMethod::GetRuntimeClassName)
        } else if slot == 5 {
            Some(PolicyMethod::GetTrustLevel)
        } else if slot == 6 {
            Some(PolicyMethod::Stub1)
        } else if slot == 7 {
            Some(PolicyMethod::Stub2)
        } else if slot == 8 {
            Some(PolicyMethod::Stub3)
        } else if slot == 9 {
            Some(PolicyMethod::SetPersistedDefaultAudioEndpoint)
        } else if slot == 10 {
            Some(PolicyMethod::GetPersistedDefaultAudioEndpoint)
        } else if slot == 11 {
            Some(PolicyMethod::ClearAllPersistedApplicationDefaultEndpoints)
        } else {
            None
        }
    }

    /// The distance in bytes of the entry of `method` from the start of
    /// the table.
    pub fn byte_offset(&self, method: PolicyMethod) -> (offset: u64)
        ensures
            offset == slot_of(method) * self.pointer_size,
    {
        let slot = Self::slot(method) as u64;
        assert(slot * self.pointer_size <= 11 * 0xFFFF_FFFF) by (nonlinear_arith)
            requires
                slot <= 11,
                self.pointer_size <= 0xFFFF_FFFF,
        ;
        slot * (self.pointer_size as u64)
    }
}

/// The purpose for which an application asks for an output device.
#[derive(Clone, Copy, Debug, PartialEq, Eq, Structural)]
pub enum Role {
    /// Games, system sounds and voice commands.
    Console,
    /// Music and films.
    Multimedia,
    /// Voice communication.
    Communications,
}

impl Role {
    /// The number by which the remote subsystem knows the role.
    pub open spec fn spec_code(self) -> i32 {
        match self {
            Role::Console => 0,
            Role::Multimedia => 1,
            Role::Communications => 2,
        }
    }

    /// The number by which the remote subsystem knows the role.
    #[verifier::when_used_as_spec(spec_code)]
    pub fn code(self) -> (code: i32)
        ensures
            code == self.spec_code(),
    {
        match self {
            Role::Console => 0,
            Role::Multimedia => 1,
            Role::Communications => 2,
        }
    }
}

/// One write to the policy store: the output device of a process for one
/// direction and one role.
#[derive(Clone, Debug, PartialEq, Eq)]
pub struct EndpointWrite {
    pub process_id: u32,
    pub flow: i32,
    pub role: Role,
    pub device_id: String,
}

/// An [`EndpointWrite`] with its device as a sequence of characters.
pub struct EndpointWriteView {
    pub process_id: u32,
    pub flow: i32,
    pub role: Role,
    pub device_id: Seq<char>,
}

impl View for EndpointWrite {
    type V = EndpointWriteView;

    open spec fn view(&self) -> EndpointWriteView {
        EndpointWriteView {
            process_id: self.process_id,
            flow: self.flow,
            role: self.role,
            device_id: self.device_id@,
        }
    }
}

/// The views of a sequence of writes.
pub open spec fn write_views(writes: Seq<EndpointWrite>) -> Seq<EndpointWriteView> {
    Seq::new(writes.len(), |k: int| writes[k]@)
}

/// One read from the policy store.
#[derive(Clone, Copy, Debug, PartialEq, Eq, Structural)]
pub struct EndpointRead {
    pub process_id: u32,
    pub flow: i32,
    pub role: Role,
}

/// The write that routes the playback of a process to a device for `role`.
pub open spec fn routing_write(process_id: u32, role: Role, device_id: Seq<char>) -> EndpointWriteView {
    EndpointWriteView { process_id, flow: FLOW_RENDER, role, device_id }
}

/// The writes of a routing request: one for each role, the console role
/// first.
pub open spec fn routing_writes(process_id: u32, device_id: Seq<char>) -> Seq<EndpointWriteView> {
    seq![
        routing_write(process_id, Role::Console, device_id),
        routing_write(process_id, Role::Multimedia, device_id),
        routing_write(process_id, Role::Communications, device_id),
    ]
}

/// The result of a routing request whose writes returned these statuses:
/// the status of the console role decides alone.
pub open spec fn routing_result(console: i32, multimedia: i32, communications: i32) -> Result<
    (),
    AudioError,
> {
    if succeeded(console) {
        Ok(())
    } else {
        Err(AudioError::RemoteCallFailed(console))
    }
}

impl AudioPolicyConfigFactory {
    /// The writes that route the playback of the process `process_id` to
    /// the device `device_id`, in the order in which they are issued.
    pub fn set_persisted_default_audio_endpoint(&self, process_id: u32, device_id: &str) -> (writes:
        Vec<EndpointWrite>)
        ensures
            write_views(writes@) == routing_writes(process_id, device_id@),
    {
        let mut writes: Vec<EndpointWrite> = Vec::new();
        writes.push(
            EndpointWrite {
                process_id,
                flow: FLOW_RENDER,
                role: Role::Console,
                device_id: device_id.to_owned(),
            },
        );
        writes.push(
            EndpointWrite {
                process_id,
                flow: FLOW_RENDER,
                role: Role::Multimedia,
                device_id: device_id.to_owned(),
            },
        );
        writes.push(
            EndpointWrite {
                process_id,
                flow: FLOW_RENDER,
                role: Role::Communications,
                device_id: device_id.to_owned(),
            },
        );
        assert(write_views(writes@) =~= routing_writes(process_id, device_id@));
        writes
    }

    /// The read that shows what the console write has stored. Its result
    /// is for diagnosis and decides nothing.
    pub fn verification_read(&self, process_id: u32) -> (read: EndpointRead)
        ensures
            read == (EndpointRead { process_id, flow: FLOW_RENDER, role: Role::Console }),
    {
        EndpointRead { process_id, flow: FLOW_RENDER, role: Role::Console }
    }

    /// The result of a routing request from the statuses that its three
    /// writes returned. The request has succeeded where the write for the
    /// console role has; the other two roles may stay unset.
    pub fn routing_outcome(console: i32, multimedia: i32, communications: i32) -> (r: Result<
        (),
        AudioError,
    >)
        ensures
            r == routing_result(console, multimedia, communications),
    {
        if console >= 0 {
            Ok(())
        } else {
            Err(AudioError::RemoteCallFailed(console))
        }
    }
}

/// Two methods never share a slot.
pub proof fn lemma_slots_are_distinct(a: PolicyMethod, b: PolicyMethod)
    ensures
        slot_of(a) == slot_of(b) ==> a == b,
{
}

/// The methods that are called directly stand behind the nine slots of
/// the base interfaces and the placeholders.
pub proof fn lemma_base_slots_are_counted()
    ensures
        slot_of(PolicyMethod::SetPersistedDefaultAudioEndpoint) == 9,
        slot_of(PolicyMethod::GetPersistedDefaultAudioEndpoint) == 10,
        slot_of(PolicyMethod::ClearAllPersistedApplicationDefaultEndpoints) == 11,
{
}

/// A routing request makes three writes, for three different roles, all
/// for the same process, direction and device.
pub proof fn lemma_routing_writes_one_per_role(process_id: u32, device_id: Seq<char>)
    ensures
        routing_writes(process_id, device_id).len() == 3,
        forall|j: int, k: int|
            0 <= j < k < 3 ==> routing_writes(process_id, device_id)[j].role != routing_writes(
                process_id,
                device_id,
            )[k].role,
        forall|k: int|
            0 <= k < 3 ==> {
                &&& (#[trigger] routing_writes(process_id, device_id)[k]).process_id == process_id
                &&& routing_writes(process_id, device_id)[k].flow == FLOW_RENDER
                &&& routing_writes(process_id, device_id)[k].device_id == device_id
            },
{
}

/// A routing request succeeds where its console write does, whatever
/// became of the other two.
pub proof fn lemma_console_write_decides(console: i32, multimedia: i32, communications: i32)
    ensures
        succeeded(console) ==> routing_result(console, multimedia, communications) is Ok,
        !succeeded(console) ==> routing_result(console, multimedia, communications) is Err,
        routing_result(console, multimedia, communications) == routing_result(console, 0, 0),
{
}

/// Whatever is answered, the acquisition never queries before a usable
/// activation, never more often than there are candidates, and never after
/// a query that succeeded.
pub proof fn lemma_answers_keep_the_order(state: AcquisitionView, answers: Seq<QueryOutcome>)
    requires
        state.wf(),
    ensures
        state.fed(answers).wf(),
        state.fed(answers).candidates == state.candidates,
    decreases answers.len(),
{
    if answers.len() > 0 {
        lemma_answers_keep_the_order(state, answers.drop_last());
    }
}

/// While no query has succeeded, feeding answers records each of them for
/// the candidate of the same position.
proof fn lemma_fed_while_refused(start: AcquisitionView, answers: Seq<QueryOutcome>, n: int)
    requires
        start.activation is Some,
        start.activation->Some_0.spec_is_usable(),
        start.queries.len() == 0,
        0 <= n <= answers.len() <= start.candidates.len(),
        forall|j: int| 0 <= j < n - 1 ==> !succeeded(answers[j].status),
    ensures
        start.fed(answers.take(n)) == (AcquisitionView { queries: answers.take(n), ..start }),
    decreases n,
{
    if n == 0 {
        assert(answers.take(0) =~= Seq::<QueryOutcome>::empty());
        assert(start.queries =~= Seq::<QueryOutcome>::empty());
    } else {
        lemma_fed_while_refused(start, answers, n - 1);
        assert(answers.take(n).drop_last() == answers.take(n - 1));
        assert(answers.take(n - 1).push(answers[n - 1]) == answers.take(n));
        let before = AcquisitionView { queries: answers.take(n - 1), ..start };
        if n - 1 > 0 {
            assert(before.queries.last() == answers[n - 2]);
        }
    }
}

/// Once a query has succeeded, further answers change nothing.
proof fn lemma_fed_after_success(state: AcquisitionView, answers: Seq<QueryOutcome>)
    requires
        state.next_step() == Step::Finished,
    ensures
        state.fed(answers) == state,
    decreases answers.len(),
{
    if answers.len() > 0 {
        lemma_fed_after_success(state, answers.drop_last());
    }
}

/// Against a remote object that is activated and whose first successful
/// answer is that for the candidate `first`, the acquisition queries the
/// candidates up to `first` and no further, and what it reaches is the interface
/// of that candidate, unless the answer carries no object.
pub proof fn lemma_acquisition_stops_at_first_success(
    candidates: Seq<u128>,
    activation: QueryOutcome,
    answers: Seq<QueryOutcome>,
    first: int,
)
    requires
        activation.spec_is_usable(),
        answers.len() == candidates.len(),
        0 <= first < answers.len(),
        succeeded(answers[first].status),
        forall|j: int| 0 <= j < first ==> !succeeded(answers[j].status),
    ensures
        ({
            let end = AcquisitionView::started(candidates).recorded(activation).fed(answers);
            &&& end.queries == answers.take(first + 1)
            &&& end.next_step() == Step::Finished
            &&& end.reached() == if answers[first].is_null {
                Err::<u128, AudioError>(AudioError::NoCompatibleInterface)
            } else {
                Ok::<u128, AudioError>(candidates[first])
            }
        }),
{
    let start = AcquisitionView::started(candidates).recorded(activation);
    lemma_fed_while_refused(start, answers, first + 1);
    let reached = start.fed(answers.take(first + 1));
    assert(reached.queries.last() == answers[first]);
    lemma_fed_split(start, answers, first + 1);
    lemma_fed_after_success(reached, answers.skip(first + 1));
}

/// Against a remote object that is activated and refuses every candidate,
/// the acquisition queries them all and finds no compatible interface.
pub proof fn lemma_acquisition_exhausts_candidates(
    candidates: Seq<u128>,
    activation: QueryOutcome,
    answers: Seq<QueryOutcome>,
)
    requires
        activation.spec_is_usable(),
        answers.len() == candidates.len(),
        forall|j: int| 0 <= j < answers.len() ==> !succeeded(answers[j].status),
    ensures
        ({
            let end = AcquisitionView::started(candidates).recorded(activation).fed(answers);
            &&& end.queries == answers
            &&& end.next_step() == Step::Finished
            &&& end.reached() == Err::<u128, AudioError>(AudioError::NoCompatibleInterface)
        }),
{
    let start = AcquisitionView::started(candidates).recorded(activation);
    lemma_fed_while_refused(start, answers, answers.len() as int);
    assert(answers.take(answers.len() as int) == answers);
    let end = start.fed(answers);
    if answers.len() > 0 {
        assert(end.queries.last() == answers[answers.len() - 1]);
    }
}

/// Feeding a run of answers is feeding its first part and then the rest.
proof fn lemma_fed_split(state: AcquisitionView, answers: Seq<QueryOutcome>, n: int)
    requires
        0 <= n <= answers.len(),
    ensures
        state.fed(answers) == state.fed(answers.take(n)).fed(answers.skip(n)),
    decreases answers.len() - n,
{
    if n == answers.len() {
        assert(answers.take(n) == answers);
        assert(answers.skip(n).len() == 0);
    } else {
        let rest = answers.skip(n);
        assert(rest.drop_last() == answers.drop_last().skip(n));
        assert(rest.last() == answers.last());
        assert(answers.drop_last().take(n) == answers.take(n));
        lemma_fed_split(state, answers.drop_last(), n);
    }
}

} // verus!
