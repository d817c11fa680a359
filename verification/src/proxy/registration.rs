//! The registration of a number.
//!
//! Numbers are registered with Signal outside of this crate. [`RegisterRun`] decides what to do:
//! each [`RegisterEvent`] says how the last piece of work ended, and each [`RegisterAction`] says
//! what to do next.
use vstd::prelude::*;

use crate::proxy::error::{ProxyError, ProxyErrorView};
use crate::proxy::registry::{
    named_number, normal_number, record_view, PhoneNumberRecord, RecordView, RegistrationStatus,
};
use crate::text::{contains, copy_opt, holds, opt_view};

verus! {

/// What Signal's refusal of a number that is registered holds.
pub const ALREADY_REGISTERED: &'static str = "already registered";

/// A request to register a number.
pub struct RegisterRequest {
    /// The solution of Signal's captcha.
    pub captcha: Option<String>,
    /// Whether the code is to be spoken instead of sent as a text message.
    pub use_voice: bool,
    /// The secret by which the sender proves later on to own the number.
    pub ownership_secret: Option<String>,
    /// The language model of the number's bot.
    pub model: Option<String>,
    /// The system prompt of the number's bot.
    pub system_prompt: Option<String>,
}

/// A [`RegisterRequest`] with its texts as character sequences.
pub struct RequestView {
    pub captcha: Option<Seq<char>>,
    pub use_voice: bool,
    pub ownership_secret: Option<Seq<char>>,
    pub model: Option<Seq<char>>,
    pub system_prompt: Option<Seq<char>>,
}

impl View for RegisterRequest {
    type V = RequestView;

    open spec fn view(&self) -> RequestView {
        RequestView {
            captcha: opt_view(self.captcha),
            use_voice: self.use_voice,
            ownership_secret: opt_view(self.ownership_secret),
            model: opt_view(self.model),
            system_prompt: opt_view(self.system_prompt),
        }
    }
}

/// The answer to a registration that was started.
#[derive(Debug)]
pub struct RegisterResponse {
    pub phone_number: String,
    pub status: String,
    pub message: String,
}

/// The piece of work whose end is awaited.
#[derive(Debug, Clone, Copy, PartialEq, Eq, Structural)]
pub enum RegisterPhase {
    /// The first try to register.
    First,
    /// The removal of a stale registration.
    Removal,
    /// The second try to register.
    Second,
    /// The storing of the record.
    Record,
    /// Nothing.
    Done,
}

/// How far a registration has come.
pub struct RegisterRun {
    phase: RegisterPhase,
    number: String,
    request: RegisterRequest,
    refusal: String,
}

/// A [`RegisterRun`] with its texts as character sequences.
pub struct RegisterView {
    pub phase: RegisterPhase,
    /// The number.
    pub number: Seq<char>,
    /// The request.
    pub request: RequestView,
    /// Why Signal refused the first try, if it did.
    pub refusal: Seq<char>,
}

impl View for RegisterRun {
    type V = RegisterView;

    closed spec fn view(&self) -> RegisterView {
        RegisterView {
            phase: self.phase,
            number: self.number@,
            request: self.request@,
            refusal: self.refusal@,
        }
    }
}

/// How the last piece of work ended.
pub enum RegisterEvent {
    /// Signal took the number, or not.
    Registered(Result<(), ProxyError>),
    /// Signal removed the number, or not.
    Removed(bool),
    /// The pending record was stored, or not.
    Recorded(Result<(), ProxyError>),
}

/// What is to be done next.
pub enum RegisterAction {
    /// Register the number with Signal.
    Register { number: String, captcha: Option<String>, use_voice: bool },
    /// Remove the number from Signal.
    Remove(String),
    /// Put a pending record of the number into the registry and store that.
    Record {
        number: String,
        ownership_secret: Option<String>,
        model: Option<String>,
        system_prompt: Option<String>,
    },
    /// Done.
    Respond(RegisterResponse),
    /// Done: refused.
    Refuse(ProxyError),
}

/// A [`RegisterAction`] with its texts as character sequences.
pub enum RegisterActionView {
    Register { number: Seq<char>, captcha: Option<Seq<char>>, use_voice: bool },
    Remove(Seq<char>),
    Record {
        number: Seq<char>,
        ownership_secret: Option<Seq<char>>,
        model: Option<Seq<char>>,
        system_prompt: Option<Seq<char>>,
    },
    Respond { phone_number: Seq<char>, status: Seq<char>, message: Seq<char> },
    Refuse(ProxyErrorView),
}

impl View for RegisterAction {
    type V = RegisterActionView;

    open spec fn view(&self) -> RegisterActionView {
        match *self {
            RegisterAction::Register { number, captcha, use_voice } => {
                RegisterActionView::Register {
                    number: number@,
                    captcha: opt_view(captcha),
                    use_voice,
                }
            },
            RegisterAction::Remove(n) => RegisterActionView::Remove(n@),
            RegisterAction::Record { number, ownership_secret, model, system_prompt } => {
                RegisterActionView::Record {
                    number: number@,
                    ownership_secret: opt_view(ownership_secret),
                    model: opt_view(model),
                    system_prompt: opt_view(system_prompt),
                }
            },
            RegisterAction::Respond(response) => RegisterActionView::Respond {
                phone_number: response.phone_number@,
                status: response.status@,
                message: response.message@,
            },
            RegisterAction::Refuse(e) => RegisterActionView::Refuse(e@),
        }
    }
}

/// Why a number with the given record may not be registered, if it may not: it is registered, or
/// its registration is pending and the sender has not proved to own it.
pub open spec fn registration_refusal(
    number: Seq<char>,
    record: Option<RecordView>,
    owned: bool,
) -> Option<ProxyErrorView> {
    match record {
        Some(r) => match r.status {
            RegistrationStatus::Verified => Some(ProxyErrorView::AlreadyRegistered(number)),
            RegistrationStatus::Pending => if owned {
                None
            } else {
                Some(ProxyErrorView::OwnershipProofMismatch)
            },
            RegistrationStatus::Failed => None,
        },
        None => None,
    }
}

/// A try to register a number as a request asks for it.
pub open spec fn try_to_register(number: Seq<char>, request: RequestView) -> RegisterActionView {
    RegisterActionView::Register {
        number,
        captcha: request.captcha,
        use_voice: request.use_voice,
    }
}

/// The storing of a record of a number as a request asks for it.
pub open spec fn record_it(number: Seq<char>, request: RequestView) -> RegisterActionView {
    RegisterActionView::Record {
        number,
        ownership_secret: request.ownership_secret,
        model: request.model,
        system_prompt: request.system_prompt,
    }
}

/// The start of a registration.
pub open spec fn register_started(
    normalized: Result<String, String>,
    record: Option<RecordView>,
    owned: bool,
    request: RequestView,
) -> (RegisterView, RegisterActionView) {
    match named_number(normalized) {
        Err(e) => (
            RegisterView { phase: RegisterPhase::Done, number: ""@, request, refusal: ""@ },
            RegisterActionView::Refuse(e),
        ),
        Ok(number) => match registration_refusal(number, record, owned) {
            Some(e) => (
                RegisterView { phase: RegisterPhase::Done, number, request, refusal: ""@ },
                RegisterActionView::Refuse(e),
            ),
            None => (
                RegisterView { phase: RegisterPhase::First, number, request, refusal: ""@ },
                try_to_register(number, request),
            ),
        },
    }
}

impl RegisterView {
    /// The event is the end of the work that is awaited.
    pub open spec fn awaits(self, event: RegisterEvent) -> bool {
        match event {
            RegisterEvent::Registered(_) => self.phase == RegisterPhase::First || self.phase
                == RegisterPhase::Second,
            RegisterEvent::Removed(_) => self.phase == RegisterPhase::Removal,
            RegisterEvent::Recorded(_) => self.phase == RegisterPhase::Record,
        }
    }

    /// The end by a refusal.
    pub open spec fn refuse(self, e: ProxyErrorView) -> (RegisterView, RegisterActionView) {
        (
            RegisterView { phase: RegisterPhase::Done, ..self },
            RegisterActionView::Refuse(e),
        )
    }

    /// Goes on after an event. A number that Signal takes for registered is removed from it and
    /// tried once more.
    pub open spec fn after(self, event: RegisterEvent) -> (RegisterView, RegisterActionView) {
        match event {
            RegisterEvent::Registered(Ok(_)) => (
                RegisterView { phase: RegisterPhase::Record, ..self },
                record_it(self.number, self.request),
            ),
            RegisterEvent::Registered(Err(e)) => match e@ {
                ProxyErrorView::SignalApi(m) if self.phase == RegisterPhase::First && holds(
                    m,
                    ALREADY_REGISTERED@,
                ) => (
                    RegisterView { phase: RegisterPhase::Removal, refusal: m, ..self },
                    RegisterActionView::Remove(self.number),
                ),
                e => self.refuse(e),
            },
            RegisterEvent::Removed(true) => (
                RegisterView { phase: RegisterPhase::Second, ..self },
                try_to_register(self.number, self.request),
            ),
            RegisterEvent::Removed(false) => self.refuse(ProxyErrorView::SignalApi(self.refusal)),
            RegisterEvent::Recorded(Ok(_)) => (
                RegisterView { phase: RegisterPhase::Done, ..self },
                RegisterActionView::Respond {
                    phone_number: self.number,
                    status: "pending"@,
                    message:
                        "Verification code sent. Use /v1/register/{number}/verify/{code} to complete."@,
                },
            ),
            RegisterEvent::Recorded(Err(e)) => self.refuse(e@),
        }
    }
}

/// Starts the registration of the number that a request names. `record` is the number's record,
/// and `owned` says whether the sender has proved to own it.
pub fn register_number(
    normalized: Result<String, String>,
    record: Option<&PhoneNumberRecord>,
    owned: bool,
    request: RegisterRequest,
) -> (r: (RegisterRun, RegisterAction))
    ensures
        (r.0@, r.1@) == register_started(normalized, record_view(record), owned, request@),
{
    let number = match normal_number(normalized) {
        Ok(number) => number,
        Err(e) => {
            let run = RegisterRun {
                phase: RegisterPhase::Done,
                number: "".to_owned(),
                request,
                refusal: "".to_owned(),
            };
            return (run, RegisterAction::Refuse(e));
        },
    };
    let refusal = match record {
        Some(r) => match r.status {
            RegistrationStatus::Verified => Some(ProxyError::AlreadyRegistered(number.clone())),
            RegistrationStatus::Pending => if owned {
                None
            } else {
                Some(ProxyError::OwnershipProofMismatch)
            },
            RegistrationStatus::Failed => None,
        },
        None => None,
    };
    match refusal {
        Some(e) => (
            RegisterRun { phase: RegisterPhase::Done, number, request, refusal: "".to_owned() },
            RegisterAction::Refuse(e),
        ),
        None => {
            let run = RegisterRun {
                phase: RegisterPhase::First,
                number,
                request,
                refusal: "".to_owned(),
            };
            let action = run.registration();
            (run, action)
        },
    }
}

impl RegisterRun {
    /// The piece of work whose end is awaited.
    pub fn phase(&self) -> (r: RegisterPhase)
        ensures
            r == self@.phase,
    {
        self.phase
    }

    /// Whether an event is awaited.
    pub fn awaits(&self, event: &RegisterEvent) -> (r: bool)
        ensures
            r == self@.awaits(*event),
    {
        match event {
            RegisterEvent::Registered(_) => matches!(
                self.phase,
                RegisterPhase::First | RegisterPhase::Second
            ),
            RegisterEvent::Removed(_) => matches!(self.phase, RegisterPhase::Removal),
            RegisterEvent::Recorded(_) => matches!(self.phase, RegisterPhase::Record),
        }
    }

    fn registration(&self) -> (r: RegisterAction)
        ensures
            r@ == try_to_register(self@.number, self@.request),
    {
        RegisterAction::Register {
            number: self.number.clone(),
            captcha: copy_opt(&self.request.captcha),
            use_voice: self.request.use_voice,
        }
    }

    fn record(&self) -> (r: RegisterAction)
        ensures
            r@ == record_it(self@.number, self@.request),
    {
        RegisterAction::Record {
            number: self.number.clone(),
            ownership_secret: copy_opt(&self.request.ownership_secret),
            model: copy_opt(&self.request.model),
            system_prompt: copy_opt(&self.request.system_prompt),
        }
    }

    /// Goes on after an event.
    pub fn step(self, event: RegisterEvent) -> (r: (RegisterRun, RegisterAction))
        requires
            self@.awaits(event),
        ensures
            (r.0@, r.1@) == self@.after(event),
    {
        let mut run = self;
        match event {
            RegisterEvent::Registered(Ok(_)) => {
                run.phase = RegisterPhase::Record;
                let action = run.record();
                (run, action)
            },
            RegisterEvent::Registered(Err(e)) => {
                if let ProxyError::SignalApi(m) = &e {
                    if matches!(run.phase, RegisterPhase::First) && contains(
                        m.as_str(),
                        ALREADY_REGISTERED,
                    ) {
                        run.phase = RegisterPhase::Removal;
                        run.refusal = m.clone();
                        let number = run.number.clone();
                        return (run, RegisterAction::Remove(number));
                    }
                }
                run.phase = RegisterPhase::Done;
                (run, RegisterAction::Refuse(e))
            },
            RegisterEvent::Removed(true) => {
                run.phase = RegisterPhase::Second;
                let action = run.registration();
                (run, action)
            },
            RegisterEvent::Removed(false) => {
                run.phase = RegisterPhase::Done;
                let refusal = run.refusal.clone();
                (run, RegisterAction::Refuse(ProxyError::SignalApi(refusal)))
            },
            RegisterEvent::Recorded(Ok(_)) => {
                run.phase = RegisterPhase::Done;
                let response = RegisterResponse {
                    phone_number: run.number.clone(),
                    status: "pending".to_owned(),
                    message:
                        "Verification code sent. Use /v1/register/{number}/verify/{code} to complete.".to_owned(),
                };
                (run, RegisterAction::Respond(response))
            },
            RegisterEvent::Recorded(Err(e)) => {
                run.phase = RegisterPhase::Done;
                (run, RegisterAction::Refuse(e))
            },
        }
    }
}

/// The state and the actions so far, after a number of events.
pub open spec fn register_history(
    normalized: Result<String, String>,
    record: Option<RecordView>,
    owned: bool,
    request: RequestView,
    events: Seq<RegisterEvent>,
) -> (RegisterView, Seq<RegisterActionView>)
    decreases events.len(),
{
    if events.len() == 0 {
        let (run, action) = register_started(normalized, record, owned, request);
        (run, seq![action])
    } else {
        let (before, actions) = register_history(normalized, record, owned, request, events.drop_last());
        let (run, action) = before.after(events.last());
        (run, actions.push(action))
    }
}

/// The events can come in this order: each of them is awaited when it comes.
pub open spec fn register_possible(
    normalized: Result<String, String>,
    record: Option<RecordView>,
    owned: bool,
    request: RequestView,
    events: Seq<RegisterEvent>,
) -> bool
    decreases events.len(),
{
    events.len() == 0 || {
        &&& register_possible(normalized, record, owned, request, events.drop_last())
        &&& register_history(normalized, record, owned, request, events.drop_last()).0.awaits(events.last())
    }
}

/// Signal took the number.
pub open spec fn is_success(event: RegisterEvent) -> bool {
    event matches RegisterEvent::Registered(Ok(_))
}

/// A number is recorded only once Signal has taken it.
pub proof fn law_recorded_numbers_are_registered(
    normalized: Result<String, String>,
    record: Option<RecordView>,
    owned: bool,
    request: RequestView,
    events: Seq<RegisterEvent>,
    i: int,
)
    requires
        register_possible(normalized, record, owned, request, events),
        0 <= i < register_history(normalized, record, owned, request, events).1.len(),
        register_history(normalized, record, owned, request, events).1[i] is Record,
    ensures
        exists|j: int| 0 <= j < events.len() && #[trigger] is_success(events[j]),
    decreases events.len(),
{
    if events.len() > 0 {
        let before = events.drop_last();
        let actions = register_history(normalized, record, owned, request, before).1;
        if i < actions.len() {
            law_recorded_numbers_are_registered(normalized, record, owned, request, before, i);
            let j = choose|j: int| 0 <= j < before.len() && #[trigger] is_success(before[j]);
            assert(is_success(events[j]));
        } else {
            assert(is_success(events[events.len() - 1]));
        }
    }
}

/// The number of tries to register.
pub open spec fn tries(actions: Seq<RegisterActionView>) -> nat {
    actions.filter(|a: RegisterActionView| a is Register).len()
}

/// A number is tried at most twice, and not at all where the request is refused at once.
pub proof fn law_at_most_two_tries(
    normalized: Result<String, String>,
    record: Option<RecordView>,
    owned: bool,
    request: RequestView,
    events: Seq<RegisterEvent>,
)
    requires
        register_possible(normalized, record, owned, request, events),
    ensures
        tries(register_history(normalized, record, owned, request, events).1) <= 2,
        register_started(normalized, record, owned, request).1 is Refuse ==> tries(
            register_history(normalized, record, owned, request, events).1,
        ) == 0,
{
    lemma_tries(normalized, record, owned, request, events);
}

proof fn lemma_tries(
    normalized: Result<String, String>,
    record: Option<RecordView>,
    owned: bool,
    request: RequestView,
    events: Seq<RegisterEvent>,
)
    requires
        register_possible(normalized, record, owned, request, events),
    ensures
        ({
            let (run, actions) = register_history(normalized, record, owned, request, events);
            let n = tries(actions);
            let start = register_started(normalized, record, owned, request);
            &&& n <= 2
            &&& run.phase == RegisterPhase::First || run.phase == RegisterPhase::Removal ==> n == 1
            &&& start.1 is Refuse ==> n == 0 && run.phase == RegisterPhase::Done
        }),
    decreases events.len(),
{
    reveal(Seq::filter);
    let is_try = |a: RegisterActionView| a is Register;
    if events.len() > 0 {
        let (before, actions) = register_history(normalized, record, owned, request, events.drop_last());
        lemma_tries(normalized, record, owned, request, events.drop_last());
        let (run, action) = before.after(events.last());
        assert(actions.push(action).drop_last() =~= actions);
        assert(tries(actions.push(action)) == tries(actions) + (if action is Register {
            1int
        } else {
            0int
        }));
    } else {
        let action = register_started(normalized, record, owned, request).1;
        assert(seq![action].drop_last() =~= Seq::empty());
        assert(Seq::<RegisterActionView>::empty().filter(is_try).len() == 0);
        assert(tries(seq![action]) == (if action is Register {
            1int
        } else {
            0int
        }));
    }
}

/// Both tries to register are made as the request asks for them, and the record holds what the
/// request says.
pub proof fn law_registrations_are_as_requested(
    normalized: Result<String, String>,
    record: Option<RecordView>,
    owned: bool,
    request: RequestView,
    events: Seq<RegisterEvent>,
)
    ensures
        ({
            let (run, actions) = register_history(normalized, record, owned, request, events);
            &&& run.request == request
            &&& named_number(normalized) matches Ok(number) ==> {
                &&& run.number == number
                &&& forall|i: int|
                    0 <= i < actions.len() && #[trigger] actions[i] is Register ==> actions[i]
                        == try_to_register(number, request)
                &&& forall|i: int|
                    0 <= i < actions.len() && #[trigger] actions[i] is Remove ==> actions[i]
                        == RegisterActionView::Remove(number)
                &&& forall|i: int|
                    0 <= i < actions.len() && #[trigger] actions[i] is Record ==> actions[i]
                        == record_it(number, request)
            }
        }),
    decreases events.len(),
{
    if events.len() > 0 {
        law_registrations_are_as_requested(normalized, record, owned, request, events.drop_last());
    }
}

/// A registration that is refused has recorded nothing, unless it was the storing that failed.
pub proof fn law_refused_numbers_are_not_recorded(
    normalized: Result<String, String>,
    record: Option<RecordView>,
    owned: bool,
    request: RequestView,
    events: Seq<RegisterEvent>,
    i: int,
)
    requires
        register_possible(normalized, record, owned, request, events),
        register_history(normalized, record, owned, request, events).1.last() is Refuse,
        0 <= i < register_history(normalized, record, owned, request, events).1.len(),
        register_history(normalized, record, owned, request, events).1[i] is Record,
    ensures
        events.len() > 0,
        events.last() matches RegisterEvent::Recorded(Err(_)),
{
    lemma_recorded_phase(normalized, record, owned, request, events);
    if events.len() > 0 {
        lemma_recorded_phase(normalized, record, owned, request, events.drop_last());
    }
}

proof fn lemma_recorded_phase(
    normalized: Result<String, String>,
    record: Option<RecordView>,
    owned: bool,
    request: RequestView,
    events: Seq<RegisterEvent>,
)
    requires
        register_possible(normalized, record, owned, request, events),
    ensures
        ({
            let (run, actions) = register_history(normalized, record, owned, request, events);
            run.phase != RegisterPhase::Record && run.phase != RegisterPhase::Done ==> {
                forall|i: int| 0 <= i < actions.len() ==> !(#[trigger] actions[i] is Record)
            }
        }),
    decreases events.len(),
{
    if events.len() > 0 {
        lemma_recorded_phase(normalized, record, owned, request, events.drop_last());
    }
}

/// What is registered is the number in its normal form, with the captcha and the choice of voice of
/// the request, at the second try as at the first. What is recorded of it are the request's
/// ownership secret, model and system prompt. What is removed and answered for is that number too.
pub proof fn law_actions_hold_what_the_request_says(
    normalized: Result<String, String>,
    record: Option<RecordView>,
    owned: bool,
    request: RegisterRequest,
    events: Seq<RegisterEvent>,
    i: int,
)
    requires
        register_possible(normalized, record, owned, request@, events),
        0 <= i < register_history(normalized, record, owned, request@, events).1.len(),
    ensures
        match register_history(normalized, record, owned, request@, events).1[i] {
            RegisterActionView::Register { number, captcha, use_voice } => {
                &&& normalized matches Ok(n)
                &&& number == n@
                &&& captcha == opt_view(request.captcha)
                &&& use_voice == request.use_voice
            },
            RegisterActionView::Remove(number) => normalized matches Ok(n) && number == n@,
            RegisterActionView::Record { number, ownership_secret, model, system_prompt } => {
                &&& normalized matches Ok(n)
                &&& number == n@
                &&& ownership_secret == opt_view(request.ownership_secret)
                &&& model == opt_view(request.model)
                &&& system_prompt == opt_view(request.system_prompt)
            },
            RegisterActionView::Respond { phone_number, status, message } => {
                &&& normalized matches Ok(n)
                &&& phone_number == n@
                &&& status == "pending"@
                &&& message
                    == "Verification code sent. Use /v1/register/{number}/verify/{code} to complete."@
            },
            RegisterActionView::Refuse(_) => true,
        },
    decreases events.len(),
{
    lemma_request_is_kept(normalized, record, owned, request@, events);
    if events.len() > 0 {
        let before = events.drop_last();
        lemma_request_is_kept(normalized, record, owned, request@, before);
        if i < register_history(normalized, record, owned, request@, before).1.len() {
            law_actions_hold_what_the_request_says(normalized, record, owned, request, before, i);
        }
    }
}

proof fn lemma_request_is_kept(
    normalized: Result<String, String>,
    record: Option<RecordView>,
    owned: bool,
    request: RequestView,
    events: Seq<RegisterEvent>,
)
    requires
        register_possible(normalized, record, owned, request, events),
    ensures
        ({
            let run = register_history(normalized, record, owned, request, events).0;
            &&& run.request == request
            &&& run.phase != RegisterPhase::Done ==> (normalized matches Ok(n) && run.number == n@)
        }),
    decreases events.len(),
{
    if events.len() > 0 {
        lemma_request_is_kept(normalized, record, owned, request, events.drop_last());
    }
}

/// A number is refused that is no number, that is registered already, or whose registration is
/// pending and not the sender's; any other is tried.
pub proof fn law_which_numbers_are_tried(
    normalized: Result<String, String>,
    record: Option<&PhoneNumberRecord>,
    owned: bool,
    request: RegisterRequest,
    r: (RegisterRun, RegisterAction),
)
    requires
        call_ensures(register_number, (normalized, record, owned, request), r),
    ensures
        match normalized {
            Err(reason) => r.1 matches RegisterAction::Refuse(e) && e@
                == ProxyErrorView::InvalidPhoneNumber(reason@),
            Ok(n) => match record {
                Some(rec) if rec.status == RegistrationStatus::Verified => {
                    r.1 matches RegisterAction::Refuse(e) && e@
                        == ProxyErrorView::AlreadyRegistered(n@)
                },
                Some(rec) if rec.status == RegistrationStatus::Pending && !owned => {
                    r.1 matches RegisterAction::Refuse(e) && e@
                        == ProxyErrorView::OwnershipProofMismatch
                },
                _ => r.1 matches RegisterAction::Register { number, captcha, use_voice } && number@
                    == n@ && opt_view(captcha) == opt_view(request.captcha) && use_voice
                    == request.use_voice,
            },
        },
{
}

/// A number that Signal takes is recorded. One that Signal takes for registered at the first try is
/// removed from it and tried again; where it cannot be removed, Signal's first reason is the
/// refusal. Any other failure is the refusal, and what was recorded is answered for.
pub proof fn law_what_follows_an_event(
    normalized: Result<String, String>,
    record: Option<RecordView>,
    owned: bool,
    request: RegisterRequest,
    events: Seq<RegisterEvent>,
)
    requires
        register_possible(normalized, record, owned, request@, events),
        events.len() > 0,
    ensures
        ({
            let action = register_history(normalized, record, owned, request@, events).1.last();
            match events.last() {
                RegisterEvent::Registered(Ok(_)) => action is Record,
                RegisterEvent::Registered(Err(e)) => if events.len() == 1 && (
                e matches ProxyError::SignalApi(m) && holds(m@, "already registered"@)) {
                    action is Remove
                } else {
                    action == RegisterActionView::Refuse(e@)
                },
                RegisterEvent::Removed(removed) => if removed {
                    action is Register
                } else {
                    &&& events.len() == 2
                    &&& events[0] matches RegisterEvent::Registered(Err(e))
                    &&& action == RegisterActionView::Refuse(e@)
                },
                RegisterEvent::Recorded(Ok(_)) => action is Respond,
                RegisterEvent::Recorded(Err(e)) => action == RegisterActionView::Refuse(e@),
            }
        }),
{
    lemma_register_phases(normalized, record, owned, request@, events);
    lemma_register_phases(normalized, record, owned, request@, events.drop_last());
    if events.len() > 1 {
        assert(events.drop_last()[0] == events[0]);
    }
}

proof fn lemma_register_phases(
    normalized: Result<String, String>,
    record: Option<RecordView>,
    owned: bool,
    request: RequestView,
    events: Seq<RegisterEvent>,
)
    requires
        register_possible(normalized, record, owned, request, events),
    ensures
        ({
            let run = register_history(normalized, record, owned, request, events).0;
            &&& run.phase == RegisterPhase::First <==> events.len() == 0 && run.phase
                != RegisterPhase::Done
            &&& run.phase == RegisterPhase::Removal ==> events.len() == 1 && (
            events[0] matches RegisterEvent::Registered(Err(e)) && e@
                == ProxyErrorView::SignalApi(run.refusal))
            &&& run.phase == RegisterPhase::Second ==> events.len() == 2
        }),
    decreases events.len(),
{
    if events.len() > 0 {
        lemma_register_phases(normalized, record, owned, request, events.drop_last());
    }
}

/// An event can come exactly where it ends the work that was asked for last.
pub proof fn law_events_end_what_was_asked_for(
    normalized: Result<String, String>,
    record: Option<RecordView>,
    owned: bool,
    request: RegisterRequest,
    events: Seq<RegisterEvent>,
    event: RegisterEvent,
)
    requires
        register_possible(normalized, record, owned, request@, events),
    ensures
        register_possible(normalized, record, owned, request@, events.push(event)) <==> (
        match register_history(normalized, record, owned, request@, events).1.last() {
            RegisterActionView::Register { .. } => event is Registered,
            RegisterActionView::Remove(_) => event is Removed,
            RegisterActionView::Record { .. } => event is Recorded,
            _ => false,
        }),
{
    assert(events.push(event).drop_last() =~= events);
}

/// The registrations of which these laws speak are those that `register_number` begins and `step`
/// goes on with.
pub proof fn law_registrations_are_begun_and_gone_on_with(
    normalized: Result<String, String>,
    record: Option<&PhoneNumberRecord>,
    owned: bool,
    request: RegisterRequest,
    begun: (RegisterRun, RegisterAction),
    events: Seq<RegisterEvent>,
    run: RegisterRun,
    event: RegisterEvent,
    gone: (RegisterRun, RegisterAction),
)
    requires
        call_ensures(register_number, (normalized, record, owned, request), begun),
        run@ == register_history(normalized, record_view(record), owned, request@, events).0,
        call_ensures(RegisterRun::step, (run, event), gone),
    ensures
        (begun.0@, seq![begun.1@]) == register_history(
            normalized,
            record_view(record),
            owned,
            request@,
            Seq::empty(),
        ),
        gone.0@ == register_history(
            normalized,
            record_view(record),
            owned,
            request@,
            events.push(event),
        ).0,
        gone.1@ == register_history(
            normalized,
            record_view(record),
            owned,
            request@,
            events.push(event),
        ).1.last(),
{
    assert(events.push(event).drop_last() =~= events);
}

/// An action is seen with the texts that it holds.
pub proof fn law_register_actions_are_seen_with_their_texts(action: RegisterAction)
    ensures
        match action {
            RegisterAction::Register { number, captcha, use_voice } => {
                &&& action@->Register_number == number@
                &&& action@->captcha == opt_view(captcha)
                &&& action@->use_voice == use_voice
            },
            RegisterAction::Remove(number) => action@ == RegisterActionView::Remove(number@),
            RegisterAction::Record { number, ownership_secret, model, system_prompt } => {
                &&& action@->Record_number == number@
                &&& action@->ownership_secret == opt_view(ownership_secret)
                &&& action@->model == opt_view(model)
                &&& action@->system_prompt == opt_view(system_prompt)
            },
            RegisterAction::Respond(response) => {
                &&& action@->phone_number == response.phone_number@
                &&& action@->status == response.status@
                &&& action@->message == response.message@
            },
            RegisterAction::Refuse(e) => action@ == RegisterActionView::Refuse(e@),
        },
{
}

/// A request is seen with all that it holds.
pub proof fn law_requests_are_seen_whole(request: RegisterRequest)
    ensures
        request@.captcha == opt_view(request.captcha),
        request@.use_voice == request.use_voice,
        request@.ownership_secret == opt_view(request.ownership_secret),
        request@.model == opt_view(request.model),
        request@.system_prompt == opt_view(request.system_prompt),
{
}

/// `awaits` says of an event whether it ends the work that was asked for last.
pub proof fn law_awaits_tells_what_can_come(
    normalized: Result<String, String>,
    record: Option<RecordView>,
    owned: bool,
    request: RequestView,
    events: Seq<RegisterEvent>,
    run: &RegisterRun,
    event: &RegisterEvent,
    r: bool,
)
    requires
        register_possible(normalized, record, owned, request, events),
        run@ == register_history(normalized, record, owned, request, events).0,
        call_ensures(RegisterRun::awaits, (run, event), r),
    ensures
        r <==> register_possible(normalized, record, owned, request, events.push(*event)),
{
    assert(events.push(*event).drop_last() =~= events);
}

} // verus!
