use vstd::prelude::*;
use crate::handlers::{
    add_int, parse_int, parse_i32_spec, to_uppercase, upper_of, HandlerError,
};
use crate::registry::{resolve, Handler, Registry};
use crate::value::{
    decode_i32, decode_i32_spec, decode_str, decode_str_spec, decode_u64, decode_u64_spec,
    encode_i32, encode_str, DecodeError, Json, Value,
};

verus! {

/// Why a call failed.
#[derive(Clone, Copy, Debug, PartialEq, Eq, Structural)]
pub enum CallError {
    /// No handler is registered under the called name.
    UnknownFunction,
    /// The arguments do not have the number or the shapes the handler takes.
    Decode(DecodeError),
    /// The handler itself refused the arguments.
    Handler(HandlerError),
}

impl CallError {
    /// A description of the error for script.
    pub fn describe(&self) -> (r: String)
        ensures
            *self == CallError::UnknownFunction ==> r@ == "no such function"@,
            *self is Decode ==> r@ == "decode error: arguments do not match the function"@,
            *self == CallError::Handler(HandlerError::NotAnInteger) ==> r@ == "invalid integer"@,
            *self == CallError::Handler(HandlerError::Overflow) ==> r@ == "integer overflow"@,
    {
        match self {
            CallError::UnknownFunction => "no such function".to_string(),
            CallError::Decode(_) => "decode error: arguments do not match the function".to_string(),
            CallError::Handler(HandlerError::NotAnInteger) => "invalid integer".to_string(),
            CallError::Handler(HandlerError::Overflow) => "integer overflow".to_string(),
        }
    }
}

/// The outcome of one call.
pub enum Outcome {
    Success(Value),
    Failure(CallError),
}

pub ghost enum OutcomeView {
    Success(Json),
    Failure(CallError),
}

impl View for Outcome {
    type V = OutcomeView;

    open spec fn view(&self) -> OutcomeView {
        match self {
            Outcome::Success(v) => OutcomeView::Success(v@),
            Outcome::Failure(e) => OutcomeView::Failure(*e),
        }
    }
}

/// A call from script: the function's name, its encoded arguments, the token
/// that correlates the answer, and the context that issued it.
pub struct CallRequest {
    pub name: String,
    pub args: Vec<Value>,
    pub call_id: u64,
    pub context: u64,
}

/// The answer to one call, tagged with the call's token.
pub struct CallResult {
    pub call_id: u64,
    pub outcome: Outcome,
}

/// An unsolicited event for script: a name and its data.
pub struct EventPayload {
    pub event: String,
    pub data: String,
}

impl EventPayload {
    /// The payload as script receives it: a record with the fields `event`
    /// and `data`, in that order.
    pub fn encode(&self) -> (r: Value)
        ensures
            r@ == Json::Record(seq![("event"@, self.event@), ("data"@, self.data@)]),
    {
        let mut fields: Vec<(String, String)> = Vec::new();
        fields.push(("event".to_string(), self.event.clone()));
        fields.push(("data".to_string(), self.data.clone()));
        proof {
            assert(crate::value::fields_view(fields@) =~= seq![("event"@, self.event@), ("data"@, self.data@)]);
        }
        Value::Record(fields)
    }
}

/// A result to be written into a script context.
pub struct Delivery {
    pub context: u64,
    pub result: CallResult,
}

/// A deferred computation for the spawner: wait `millis` milliseconds, then
/// report `ticket` to [`Dispatcher::complete`].
#[derive(Clone, Copy, Debug, PartialEq, Eq, Structural)]
pub struct SleepTask {
    pub ticket: u64,
    pub millis: u64,
}

/// What the engine boundary does next with a call.
pub enum Step {
    /// The call is answered now.
    Reply(Delivery),
    /// The call is in flight: hand the task to the spawner.
    Spawn(SleepTask),
}

/// The result of dispatching one call: its next step, and the events that the
/// handler emitted into the calling context, in the order it emitted them.
pub struct Dispatched {
    pub step: Step,
    pub events: Vec<EventPayload>,
}

/// An asynchronous call in flight: where and under which token it is answered.
#[derive(Clone, Copy, Debug, PartialEq, Eq, Structural)]
pub struct PendingCall {
    pub ticket: u64,
    pub call_id: u64,
    pub context: u64,
}

pub open spec fn ok_chars() -> Seq<char> {
    seq!['o', 'k']
}

pub open spec fn custom_chars() -> Seq<char> {
    seq!['c', 'u', 's', 't', 'o', 'm']
}

pub open spec fn args_view(args: Seq<Value>) -> Seq<Json> {
    args.map_values(|v: Value| v@)
}

/// How many arguments a handler takes.
pub open spec fn arg_count(h: Handler) -> nat {
    match h {
        Handler::ToUppercase => 1,
        Handler::AddInt => 2,
        Handler::ParseInt => 1,
        Handler::Sleep => 1,
        Handler::Emit => 0,
    }
}

/// The outcome of calling `h` with `args`: a decode error where they do not
/// fit, else what the handler answers (for `Sleep`, once its delay is over).
pub open spec fn outcome_spec(h: Handler, args: Seq<Json>) -> OutcomeView {
    if args.len() != arg_count(h) {
        OutcomeView::Failure(
            CallError::Decode(
                DecodeError::ArgCount { expected: arg_count(h) as usize, actual: args.len() as usize },
            ),
        )
    } else {
        match h {
            Handler::ToUppercase => match decode_str_spec(args[0]) {
                Ok(s) => OutcomeView::Success(Json::Str(upper_of(s))),
                Err(e) => OutcomeView::Failure(CallError::Decode(e)),
            },
            Handler::AddInt => match decode_i32_spec(args[0]) {
                Ok(a) => match decode_i32_spec(args[1]) {
                    Ok(b) => if i32::MIN <= a + b <= i32::MAX {
                        OutcomeView::Success(Json::Int(a + b))
                    } else {
                        OutcomeView::Failure(CallError::Handler(HandlerError::Overflow))
                    },
                    Err(e) => OutcomeView::Failure(CallError::Decode(e)),
                },
                Err(e) => OutcomeView::Failure(CallError::Decode(e)),
            },
            Handler::ParseInt => match decode_str_spec(args[0]) {
                Ok(s) => match parse_i32_spec(s) {
                    Some(v) => OutcomeView::Success(Json::Int(v as int)),
                    None => OutcomeView::Failure(CallError::Handler(HandlerError::NotAnInteger)),
                },
                Err(e) => OutcomeView::Failure(CallError::Decode(e)),
            },
            Handler::Sleep => match decode_u64_spec(args[0]) {
                Ok(_) => OutcomeView::Success(Json::Str(ok_chars())),
                Err(e) => OutcomeView::Failure(CallError::Decode(e)),
            },
            Handler::Emit => OutcomeView::Success(Json::Null),
        }
    }
}

/// Whether calling `h` with `args` emits the `custom` event.
pub open spec fn emits_spec(h: Handler, args: Seq<Json>) -> bool {
    h == Handler::Emit && args.len() == 0
}

fn ok_text() -> (r: String)
    ensures
        r@ == ok_chars(),
{
    proof {
        reveal_strlit("ok");
    }
    "ok".to_string()
}

fn custom_text() -> (r: String)
    ensures
        r@ == custom_chars(),
{
    proof {
        reveal_strlit("custom");
    }
    "custom".to_string()
}

/// The event that the `Emit` handler sends: `custom`, with data `ok`.
pub fn custom_event() -> (r: EventPayload)
    ensures
        r.event@ == custom_chars(),
        r.data@ == ok_chars(),
{
    EventPayload { event: custom_text(), data: ok_text() }
}

/// Runs a handler that answers at once, from decoding to encoding.
pub fn invoke(h: Handler, args: &Vec<Value>) -> (r: Outcome)
    requires
        h != Handler::Sleep,
    ensures
        r@ == outcome_spec(h, args_view(args@)),
{
    let n: usize = match h {
        Handler::ToUppercase => 1,
        Handler::AddInt => 2,
        Handler::ParseInt => 1,
        Handler::Sleep => 1,
        Handler::Emit => 0,
    };
    if args.len() != n {
        return Outcome::Failure(
            CallError::Decode(DecodeError::ArgCount { expected: n, actual: args.len() }),
        );
    }
    assert(forall|i: int| 0 <= i < args@.len() ==> #[trigger] args_view(args@)[i] == args@[i]@);
    match h {
        Handler::ToUppercase => match decode_str(&args[0]) {
            Ok(s) => Outcome::Success(encode_str(to_uppercase(&s))),
            Err(e) => Outcome::Failure(CallError::Decode(e)),
        },
        Handler::AddInt => {
            match decode_i32(&args[0]) {
                Ok(a) => match decode_i32(&args[1]) {
                    Ok(b) => match add_int(a, b) {
                        Ok(s) => Outcome::Success(encode_i32(s)),
                        Err(e) => Outcome::Failure(CallError::Handler(e)),
                    },
                    Err(e) => Outcome::Failure(CallError::Decode(e)),
                },
                Err(e) => Outcome::Failure(CallError::Decode(e)),
            }
        },
        Handler::ParseInt => match decode_str(&args[0]) {
            Ok(s) => match parse_int(&s) {
                Ok(v) => Outcome::Success(encode_i32(v)),
                Err(e) => Outcome::Failure(CallError::Handler(e)),
            },
            Err(e) => Outcome::Failure(CallError::Decode(e)),
        },
        Handler::Sleep => Outcome::Success(encode_str(ok_text())),
        Handler::Emit => Outcome::Success(Value::Null),
    }
}

/// Tickets of the calls in flight are distinct, and below the next ticket.
pub open spec fn pending_wf(pending: Seq<PendingCall>, next: u64) -> bool {
    &&& forall|i: int| 0 <= i < pending.len() ==> (#[trigger] pending[i]).ticket < next
    &&& forall|i: int, j: int|
        0 <= i < pending.len() && 0 <= j < pending.len() && i != j ==> (#[trigger] pending[i]).ticket
            != (#[trigger] pending[j]).ticket
}

/// Answers calls from script through a registry, and keeps each asynchronous
/// call in flight until its deferred computation completes.
pub struct Dispatcher {
    registry: Registry,
    pending: Vec<PendingCall>,
    next_ticket: u64,
}

impl Dispatcher {
    /// The registrations that calls resolve against.
    pub closed spec fn registrations(&self) -> Seq<(Seq<char>, Handler)> {
        self.registry@
    }

    /// The asynchronous calls in flight, oldest first.
    pub closed spec fn pending(&self) -> Seq<PendingCall> {
        self.pending@
    }

    /// The ticket that the next asynchronous call gets.
    pub closed spec fn next_ticket(&self) -> u64 {
        self.next_ticket
    }

    pub open spec fn wf(&self) -> bool {
        pending_wf(self.pending(), self.next_ticket())
    }

    /// A dispatcher over `registry`, with no call in flight.
    pub fn new(registry: Registry) -> (r: Dispatcher)
        ensures
            r.wf(),
            r.registrations() == registry@,
            r.pending() == Seq::<PendingCall>::empty(),
            r.next_ticket() == 0,
    {
        Dispatcher { registry, pending: Vec::new(), next_ticket: 0 }
    }

    /// Whether a ticket is left for another asynchronous call.
    pub fn has_ticket(&self) -> (r: bool)
        ensures
            r == (self.next_ticket() < u64::MAX),
    {
        self.next_ticket < u64::MAX
    }

    /// The number of asynchronous calls in flight.
    pub fn in_flight(&self) -> (r: usize)
        ensures
            r == self.pending().len(),
    {
        self.pending.len()
    }

    /// Takes one call from script: an unknown name fails at once; a handler
    /// that answers at once is run, and its answer carries the call's token
    /// to the calling context; a well-formed asynchronous call is kept in
    /// flight under a fresh ticket and handed to the spawner.
    pub fn dispatch(&mut self, req: CallRequest) -> (r: Dispatched)
        requires
            old(self).wf(),
            old(self).next_ticket() < u64::MAX,
        ensures
            final(self).wf(),
            final(self).registrations() == old(self).registrations(),
            ({
                let args = args_view(req.args@);
                match resolve(old(self).registrations(), req.name@) {
                    None => {
                        &&& r.step matches Step::Reply(d)
                        &&& d.context == req.context
                        &&& d.result.call_id == req.call_id
                        &&& d.result.outcome@ == OutcomeView::Failure(CallError::UnknownFunction)
                        &&& r.events@.len() == 0
                        &&& final(self).pending() == old(self).pending()
                        &&& final(self).next_ticket() == old(self).next_ticket()
                    },
                    Some(h) => {
                        &&& (emits_spec(h, args) ==> r.events@.len() == 1
                            && r.events@[0].event@ == custom_chars()
                            && r.events@[0].data@ == ok_chars())
                        &&& (!emits_spec(h, args) ==> r.events@.len() == 0)
                        &&& if h == Handler::Sleep && outcome_spec(h, args) is Success {
                            &&& r.step == Step::Spawn(
                                SleepTask {
                                    ticket: old(self).next_ticket(),
                                    millis: decode_u64_spec(args[0])->Ok_0,
                                },
                            )
                            &&& final(self).pending() == old(self).pending().push(
                                PendingCall {
                                    ticket: old(self).next_ticket(),
                                    call_id: req.call_id,
                                    context: req.context,
                                },
                            )
                            &&& final(self).next_ticket() == old(self).next_ticket() + 1
                        } else {
                            &&& r.step matches Step::Reply(d)
                            &&& d.context == req.context
                            &&& d.result.call_id == req.call_id
                            &&& d.result.outcome@ == outcome_spec(h, args)
                            &&& final(self).pending() == old(self).pending()
                            &&& final(self).next_ticket() == old(self).next_ticket()
                        }
                    },
                }
            }),
    {
        let ghost args = args_view(req.args@);
        let mut events: Vec<EventPayload> = Vec::new();
        match self.registry.lookup(req.name.as_str()) {
            None => {
                let result = CallResult { call_id: req.call_id, outcome: Outcome::Failure(CallError::UnknownFunction) };
                Dispatched { step: Step::Reply(Delivery { context: req.context, result }), events }
            },
            Some(h) => {
                if h.is_async() {
                    let decoded = if req.args.len() != 1 {
                        Err(DecodeError::ArgCount { expected: 1, actual: req.args.len() })
                    } else {
                        assert(args[0] == req.args@[0]@);
                        decode_u64(&req.args[0])
                    };
                    match decoded {
                        Ok(millis) => {
                            let ticket = self.next_ticket;
                            let call = PendingCall { ticket, call_id: req.call_id, context: req.context };
                            self.pending.push(call);
                            self.next_ticket = ticket + 1;
                            proof {
                                let p = self.pending@;
                                assert forall|i: int, j: int|
                                    0 <= i < p.len() && 0 <= j < p.len() && i != j implies (#[trigger] p[i]).ticket
                                        != (#[trigger] p[j]).ticket by {
                                    if i < p.len() - 1 && j < p.len() - 1 {
                                        assert(p[i] == old(self).pending@[i]);
                                        assert(p[j] == old(self).pending@[j]);
                                    }
                                }
                            }
                            Dispatched { step: Step::Spawn(SleepTask { ticket, millis }), events }
                        },
                        Err(e) => {
                            let result = CallResult { call_id: req.call_id, outcome: Outcome::Failure(CallError::Decode(e)) };
                            Dispatched { step: Step::Reply(Delivery { context: req.context, result }), events }
                        },
                    }
                } else {
                    let outcome = invoke(h, &req.args);
                    if h == Handler::Emit && req.args.len() == 0 {
                        events.push(custom_event());
                    }
                    let result = CallResult { call_id: req.call_id, outcome };
                    Dispatched { step: Step::Reply(Delivery { context: req.context, result }), events }
                }
            },
        }
    }

    /// Reports that the deferred computation under `ticket` has completed:
    /// the call in flight under it leaves the dispatcher and is answered with
    /// `"ok"`, under its own token, to its own context. A ticket that is not
    /// in flight (never issued, or already answered) gives nothing.
    pub fn complete(&mut self, ticket: u64) -> (r: Option<Delivery>)
        requires
            old(self).wf(),
        ensures
            final(self).wf(),
            final(self).registrations() == old(self).registrations(),
            final(self).next_ticket() == old(self).next_ticket(),
            r is None <==> (forall|i: int| 0 <= i < old(self).pending().len() ==> (#[trigger] old(self).pending()[i]).ticket != ticket),
            r is None ==> final(self).pending() == old(self).pending(),
            r matches Some(d) ==> exists|i: int| {
                &&& 0 <= i < old(self).pending().len()
                &&& #[trigger] old(self).pending()[i].ticket == ticket
                &&& d.context == old(self).pending()[i].context
                &&& d.result.call_id == old(self).pending()[i].call_id
                &&& d.result.outcome@ == OutcomeView::Success(Json::Str(ok_chars()))
                &&& final(self).pending() == old(self).pending().remove(i)
            },
    {
        let mut i: usize = 0;
        while i < self.pending.len()
            invariant
                i <= self.pending@.len(),
                self.pending@ == old(self).pending@,
                self.next_ticket == old(self).next_ticket,
                self.registry@ == old(self).registry@,
                pending_wf(old(self).pending@, old(self).next_ticket),
                forall|k: int| 0 <= k < i ==> (#[trigger] self.pending@[k]).ticket != ticket,
            decreases self.pending@.len() - i,
        {
            if self.pending[i].ticket == ticket {
                let call = self.pending.remove(i);
                proof {
                    let o = old(self).pending@;
                    let p = self.pending@;
                    assert(p =~= o.remove(i as int));
                    assert forall|a: int, b: int|
                        0 <= a < p.len() && 0 <= b < p.len() && a != b implies (#[trigger] p[a]).ticket
                            != (#[trigger] p[b]).ticket by {
                        let a2 = if a < i { a } else { a + 1 };
                        let b2 = if b < i { b } else { b + 1 };
                        assert(p[a] == o[a2]);
                        assert(p[b] == o[b2]);
                    }
                    assert forall|a: int| 0 <= a < p.len() implies (#[trigger] p[a]).ticket < self.next_ticket by {
                        let a2 = if a < i { a } else { a + 1 };
                        assert(p[a] == o[a2]);
                    }
                }
                let result = CallResult { call_id: call.call_id, outcome: Outcome::Success(encode_str(ok_text())) };
                proof {
                    let k = i as int;
                    assert(old(self).pending()[k] == call);
                    assert(old(self).pending()[k].ticket == ticket);
                    assert(self.pending() == old(self).pending().remove(k));
                }
                return Some(Delivery { context: call.context, result });
            }
            i = i + 1;
        }
        None
    }
}

/// A call handed to the spawner is answered under the token of the request
/// that made it, and to that request's context: after the dispatcher records
/// it, the one call in flight under its ticket is that request's.
pub proof fn lemma_ticket_names_its_request(
    pending: Seq<PendingCall>,
    next: u64,
    call_id: u64,
    context: u64,
)
    requires
        pending_wf(pending, next),
        next < u64::MAX,
    ensures
        ({
            let after = pending.push(PendingCall { ticket: next, call_id, context });
            &&& pending_wf(after, (next + 1) as u64)
            &&& forall|i: int|
                0 <= i < after.len() && (#[trigger] after[i]).ticket == next ==> after[i].call_id == call_id
                    && after[i].context == context
        }),
{
    let after = pending.push(PendingCall { ticket: next, call_id, context });
    assert forall|i: int| 0 <= i < after.len() && (#[trigger] after[i]).ticket == next implies after[i].call_id
        == call_id && after[i].context == context by {
        if i < pending.len() {
            assert(after[i] == pending[i]);
        }
    }
    assert forall|i: int, j: int|
        0 <= i < after.len() && 0 <= j < after.len() && i != j implies (#[trigger] after[i]).ticket
            != (#[trigger] after[j]).ticket by {
        if i < pending.len() {
            assert(after[i] == pending[i]);
        }
        if j < pending.len() {
            assert(after[j] == pending[j]);
        }
    }
}

/// Once the call under a ticket is answered, no call is in flight under that
/// ticket any more: no call is answered twice.
pub proof fn lemma_answered_once(pending: Seq<PendingCall>, next: u64, i: int)
    requires
        pending_wf(pending, next),
        0 <= i < pending.len(),
    ensures
        forall|k: int| 0 <= k < pending.remove(i).len() ==> (#[trigger] pending.remove(i)[k]).ticket != pending[i].ticket,
{
    let p = pending.remove(i);
    assert forall|k: int| 0 <= k < p.len() implies (#[trigger] p[k]).ticket != pending[i].ticket by {
        let k2 = if k < i { k } else { k + 1 };
        assert(p[k] == pending[k2]);
    }
}

/// Whether `args` decode to the parameters of `h`: their number, and the
/// shape and range of each.
pub open spec fn args_decode(h: Handler, args: Seq<Json>) -> bool {
    &&& args.len() == arg_count(h)
    &&& match h {
        Handler::ToUppercase | Handler::ParseInt => decode_str_spec(args[0]) is Ok,
        Handler::AddInt => decode_i32_spec(args[0]) is Ok && decode_i32_spec(args[1]) is Ok,
        Handler::Sleep => decode_u64_spec(args[0]) is Ok,
        Handler::Emit => true,
    }
}

/// A synchronous handler called with encoded native arguments answers with
/// the encoding of what the native function returns, and that answer decodes
/// back to the native value.
pub proof fn lemma_sync_round_trip(a: i32, b: i32, s: Seq<char>)
    ensures
        i32::MIN <= a + b <= i32::MAX ==> outcome_spec(
            Handler::AddInt,
            seq![Json::Int(a as int), Json::Int(b as int)],
        ) == OutcomeView::Success(Json::Int(a + b)) && decode_i32_spec(Json::Int(a + b)) == Ok::<i32, DecodeError>(
            (a + b) as i32,
        ),
        outcome_spec(Handler::ToUppercase, seq![Json::Str(s)]) == OutcomeView::Success(
            Json::Str(upper_of(s)),
        ) && decode_str_spec(Json::Str(upper_of(s))) == Ok::<Seq<char>, DecodeError>(upper_of(s)),
        parse_i32_spec(s) matches Some(v) ==> outcome_spec(Handler::ParseInt, seq![Json::Str(s)])
            == OutcomeView::Success(Json::Int(v as int)) && decode_i32_spec(Json::Int(v as int)) == Ok::<
            i32,
            DecodeError,
        >(v),
        outcome_spec(Handler::Emit, Seq::<Json>::empty()) == OutcomeView::Success(Json::Null),
{
}

/// Arguments of the wrong number or shape never reach the handler: the call
/// fails with a decode error, and the handler emits nothing.
pub proof fn lemma_decode_failure_not_invoked(h: Handler, args: Seq<Json>)
    requires
        !args_decode(h, args),
    ensures
        outcome_spec(h, args) matches OutcomeView::Failure(CallError::Decode(_)),
        !emits_spec(h, args),
{
}

} // verus!
