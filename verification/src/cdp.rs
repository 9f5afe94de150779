//! The Chrome DevTools Protocol as far as it is spoken here: the list of pages,
//! the commands that put the script into a page, and their replies.

use vstd::prelude::*;
use vstd::string::*;

use crate::json;
use crate::json::Json;
use crate::pet_focus;
use crate::text;

verus! {

/// How long a reply is waited for, in milliseconds.
pub const RESPONSE_TIMEOUT_MILLIS: u64 = 8_000;

/// How long the connection is read before the time is looked at again, in
/// milliseconds.
pub const READ_TIMEOUT_MILLIS: u64 = 500;

/// A text and what follows it.
fn joined(first: &str, second: &str) -> (whole: String)
    ensures
        whole@ == first@ + second@,
{
    let mut whole = first.to_owned();
    whole.append(second);
    whole
}

/// The reason phrase that the http crate knows for a status, or what stands for
/// it.
pub uninterp spec fn status_reason(status: u16) -> Seq<char>;

/// `StatusCode::to_string`, through its `Display`: the code and the reason phrase.
/// `StatusCode::from_u16`, which makes the status, takes three digits.
#[verifier::external_body]
fn status_line(status: u16) -> (line: String)
    requires
        100 <= status <= 999,
    ensures
        line@ == text::decimal(status as nat) + " "@ + status_reason(status),
{
    http::StatusCode::from_u16(status).unwrap().to_string()
}

/// Why the list of pages cannot be asked for, if it cannot, by the port of the
/// debugger.
pub open spec fn port_error(cdp_port: u16) -> Option<Seq<char>> {
    if cdp_port == 0 {
        Some("CDP port not ready"@)
    } else {
        None
    }
}

/// Why the list of pages cannot be read, if it cannot, by the status of the answer.
pub open spec fn answer_error(status: u16) -> Option<Seq<char>> {
    if 200 <= status < 300 {
        None
    } else {
        Some(
            "CDP /json/list returned "@ + (text::decimal(status as nat) + " "@ + status_reason(
                status,
            )),
        )
    }
}

/// The error of an outcome, over sequences.
pub open spec fn error_of(outcome: Result<(), String>) -> Option<Seq<char>> {
    match outcome {
        Ok(()) => None,
        Err(e) => Some(e@),
    }
}

/// Whether the list of pages can be asked for, by the port of the debugger, which
/// is zero until it is known.
pub fn page_list_ready(cdp_port: u16) -> (ready: Result<(), String>)
    ensures
        cdp_port != 0 ==> ready is Ok,
        cdp_port == 0 ==> ready is Err && ready->Err_0@ == "CDP port not ready"@,
        error_of(ready) == port_error(cdp_port),
{
    if cdp_port == 0 {
        Err("CDP port not ready".to_owned())
    } else {
        Ok(())
    }
}

/// What is said where the list of pages could not be asked for.
pub fn page_list_failed(e: &str) -> (error: String)
    ensures
        error@ == "CDP /json/list request failed: "@ + e@,
{
    joined("CDP /json/list request failed: ", e)
}

/// Whether the list of pages can be read, by the status of the answer: it must
/// report success.
pub fn page_list_answered(status: u16) -> (readable: Result<(), String>)
    requires
        100 <= status <= 999,
    ensures
        200 <= status < 300 ==> readable is Ok,
        !(200 <= status < 300) ==> readable is Err && readable->Err_0@
            == "CDP /json/list returned "@ + (text::decimal(status as nat) + " "@ + status_reason(
            status,
        )),
        error_of(readable) == answer_error(status),
{
    if 200 <= status && status < 300 {
        Ok(())
    } else {
        Err(joined("CDP /json/list returned ", status_line(status).as_str()))
    }
}

/// The addresses of the overlay's debuggers, from the list of pages that was read.
pub fn locate_avatar_overlay_ws_urls(pages: Result<Vec<serde_json::Value>, String>) -> (located:
    Result<Vec<String>, String>)
    ensures
        match pages {
            Err(e) => located is Err && located->Err_0@ == "CDP /json/list JSON parse failed: "@
                + e@,
            Ok(list) => located is Ok && pet_focus::texts_of(located->Ok_0@)
                == pet_focus::overlay_urls(json::json_of_all(list@)),
        },
{
    match pages {
        Err(e) => Err(joined("CDP /json/list JSON parse failed: ", e.as_str())),
        Ok(list) => Ok(pet_focus::avatar_overlay_ws_urls(list.as_slice())),
    }
}

/// A command of the protocol.
pub open spec fn message(id: u64, method: Seq<char>, params: Json) -> Json {
    Json::Object(
        json::no_entries().insert("id"@, json::integer(id as int)).insert(
            "method"@,
            Json::Text(method),
        ).insert("params"@, params),
    )
}

/// The text of a command, and its id.
pub fn make_msg(id: u64, method: &str, params: serde_json::Value) -> (msg: (String, u64))
    ensures
        msg.0@ == json::json_text(message(id, method@, json::json_of(params))),
        msg.1 == id,
{
    let mut value = json::empty_object();
    json::set(&mut value, "id", json::from_u64(id));
    json::set(&mut value, "method", json::from_text(method));
    json::set(&mut value, "params", params);
    (json::to_text(&value), id)
}

/// The commands that put the script into a page, in their order: the page's
/// events are switched on, the script is set to run in every document to come, and
/// it is run in the present one.
#[derive(Clone, Copy)]
pub enum Command {
    EnablePage,
    AddScript,
    Evaluate,
}

impl Command {
    /// The id of the command.
    pub open spec fn spec_id(self) -> u64 {
        match self {
            Command::EnablePage => 1,
            Command::AddScript => 2,
            Command::Evaluate => 3,
        }
    }

    /// The command itself.
    pub open spec fn content(self) -> Json {
        let script = Json::Text(pet_focus::ANTI_FOCUS_SCRIPT@);
        match self {
            Command::EnablePage => message(
                1,
                "Page.enable"@,
                Json::Object(json::no_entries()),
            ),
            Command::AddScript => message(
                2,
                "Page.addScriptToEvaluateOnNewDocument"@,
                Json::Object(json::no_entries().insert("source"@, script)),
            ),
            Command::Evaluate => message(
                3,
                "Runtime.evaluate"@,
                Json::Object(
                    json::no_entries().insert("expression"@, script).insert(
                        "returnByValue"@,
                        Json::Bool(true),
                    ),
                ),
            ),
        }
    }

    /// How the failure to send the command begins.
    pub open spec fn send_failed(self) -> Seq<char> {
        match self {
            Command::EnablePage => "CDP Page.enable send failed: "@,
            Command::AddScript => "CDP addScript send failed: "@,
            Command::Evaluate => "CDP Runtime.evaluate send failed: "@,
        }
    }

    /// The id of the command.
    pub fn id(self) -> (id: u64)
        ensures
            id == self.spec_id(),
    {
        match self {
            Command::EnablePage => 1,
            Command::AddScript => 2,
            Command::Evaluate => 3,
        }
    }

    /// The text of the command.
    pub fn text(self) -> (text: String)
        ensures
            text@ == json::json_text(self.content()),
    {
        let (method, params) = match self {
            Command::EnablePage => ("Page.enable", json::empty_object()),
            Command::AddScript => {
                let mut params = json::empty_object();
                json::set(&mut params, "source", json::from_text(pet_focus::anti_focus_script()));
                ("Page.addScriptToEvaluateOnNewDocument", params)
            },
            Command::Evaluate => {
                let mut params = json::empty_object();
                json::set(
                    &mut params,
                    "expression",
                    json::from_text(pet_focus::anti_focus_script()),
                );
                json::set(&mut params, "returnByValue", json::from_bool(true));
                ("Runtime.evaluate", params)
            },
        };
        make_msg(self.id(), method, params).0
    }

    fn send_error(self, e: &str) -> (error: String)
        ensures
            error@ == self.send_failed() + e@,
    {
        match self {
            Command::EnablePage => joined("CDP Page.enable send failed: ", e),
            Command::AddScript => joined("CDP addScript send failed: ", e),
            Command::Evaluate => joined("CDP Runtime.evaluate send failed: ", e),
        }
    }
}

/// The next thing to do to put the script into a page.
pub enum Injection {
    /// Connect to the debugger.
    Connect,
    /// Send a command.
    Send(Command),
    /// Wait for the reply to a command.
    Await(Command),
    /// Close the connection.
    Close,
    /// Nothing: it is over.
    Done(Result<(), String>),
}

/// `Injection`, over sequences.
pub enum InjectionView {
    Connect,
    Send(Command),
    Await(Command),
    Close,
    Done(Result<(), Seq<char>>),
}

/// An outcome, over sequences.
pub open spec fn outcome_view(outcome: Result<(), String>) -> Result<(), Seq<char>> {
    match outcome {
        Ok(()) => Ok(()),
        Err(e) => Err(e@),
    }
}

impl View for Injection {
    type V = InjectionView;

    open spec fn view(&self) -> InjectionView {
        match self {
            Injection::Connect => InjectionView::Connect,
            Injection::Send(command) => InjectionView::Send(*command),
            Injection::Await(command) => InjectionView::Await(*command),
            Injection::Close => InjectionView::Close,
            Injection::Done(outcome) => InjectionView::Done(outcome_view(*outcome)),
        }
    }
}

/// What to do once a thing was done or failed. The first failure ends it; that the
/// connection could not be closed does not count.
pub open spec fn after_outcome(step: InjectionView, outcome: Result<(), Seq<char>>) -> InjectionView {
    match (step, outcome) {
        (InjectionView::Connect, Ok(_)) => InjectionView::Send(Command::EnablePage),
        (InjectionView::Connect, Err(e)) => InjectionView::Done(
            Err("CDP websocket connect failed: "@ + e),
        ),
        (InjectionView::Send(command), Ok(_)) => InjectionView::Await(command),
        (InjectionView::Send(command), Err(e)) => InjectionView::Done(
            Err(command.send_failed() + e),
        ),
        (InjectionView::Await(Command::EnablePage), Ok(_)) => InjectionView::Send(
            Command::AddScript,
        ),
        (InjectionView::Await(Command::AddScript), Ok(_)) => InjectionView::Send(Command::Evaluate),
        (InjectionView::Await(Command::Evaluate), Ok(_)) => InjectionView::Close,
        (InjectionView::Await(_), Err(e)) => InjectionView::Done(Err(e)),
        (InjectionView::Close, _) => InjectionView::Done(Ok(())),
        (InjectionView::Done(result), _) => InjectionView::Done(result),
    }
}

/// What to do once a thing was done or failed.
pub fn inject_into_target(step: Injection, outcome: Result<(), String>) -> (next: Injection)
    ensures
        next@ == after_outcome(step@, outcome_view(outcome)),
{
    match step {
        Injection::Connect => match outcome {
            Ok(()) => Injection::Send(Command::EnablePage),
            Err(e) => Injection::Done(Err(joined("CDP websocket connect failed: ", e.as_str()))),
        },
        Injection::Send(command) => match outcome {
            Ok(()) => Injection::Await(command),
            Err(e) => Injection::Done(Err(command.send_error(e.as_str()))),
        },
        Injection::Await(command) => match outcome {
            Ok(()) => match command {
                Command::EnablePage => Injection::Send(Command::AddScript),
                Command::AddScript => Injection::Send(Command::Evaluate),
                Command::Evaluate => Injection::Close,
            },
            Err(e) => Injection::Done(Err(e)),
        },
        Injection::Close => Injection::Done(Ok(())),
        Injection::Done(result) => Injection::Done(result),
    }
}

/// What happens while a reply is waited for.
pub enum Arrival {
    /// The time for the reply is over.
    DeadlinePassed,
    /// Nothing came for a while.
    Idle,
    /// A text message came.
    Text(String),
    /// Another message came.
    Other,
    /// The connection could not be read.
    Failed(String),
    /// The connection was closed.
    Closed,
}

/// `Arrival`, over sequences.
pub enum ArrivalView {
    DeadlinePassed,
    Idle,
    Text(Seq<char>),
    Other,
    Failed(Seq<char>),
    Closed,
}

impl View for Arrival {
    type V = ArrivalView;

    open spec fn view(&self) -> ArrivalView {
        match self {
            Arrival::DeadlinePassed => ArrivalView::DeadlinePassed,
            Arrival::Idle => ArrivalView::Idle,
            Arrival::Text(text) => ArrivalView::Text(text@),
            Arrival::Other => ArrivalView::Other,
            Arrival::Failed(e) => ArrivalView::Failed(e@),
            Arrival::Closed => ArrivalView::Closed,
        }
    }
}

/// What a message makes of the command that waits for its reply: nothing, unless
/// it is the reply; then the command has failed where the reply has an `error` or
/// its result has `exceptionDetails`, and is done elsewhere.
pub open spec fn reply_verdict(expected_id: u64, reply: Json) -> Option<Result<(), Seq<char>>> {
    if json::integer_within(json::field(reply, "id"@), 0, u64::MAX as int) != Some(
        expected_id as int,
    ) {
        None
    } else {
        match json::field(reply, "error"@) {
            Some(error) => Some(
                Err(
                    "CDP error for id="@ + text::decimal(expected_id as nat) + ": "@
                        + json::json_text(error),
                ),
            ),
            None => match json::field_of(json::field(reply, "result"@), "exceptionDetails"@) {
                Some(exception) => Some(
                    Err(
                        "CDP exception for id="@ + text::decimal(expected_id as nat) + ": "@
                            + json::json_text(exception),
                    ),
                ),
                None => Some(Ok(())),
            },
        }
    }
}

/// What an arrival makes of the command that waits for its reply: nothing where
/// the wait goes on.
pub open spec fn verdict(expected_id: u64, arrival: ArrivalView) -> Option<Result<(), Seq<char>>> {
    match arrival {
        ArrivalView::DeadlinePassed => Some(
            Err("CDP response timeout for id="@ + text::decimal(expected_id as nat)),
        ),
        ArrivalView::Text(text) => match json::json_parsed(text) {
            Some(reply) => reply_verdict(expected_id, reply),
            None => None,
        },
        ArrivalView::Failed(e) => Some(Err("CDP read error: "@ + e)),
        ArrivalView::Closed => Some(Err("CDP connection closed"@)),
        ArrivalView::Idle => None,
        ArrivalView::Other => None,
    }
}

/// A verdict, over sequences.
pub open spec fn verdict_view(verdict: Option<Result<(), String>>) -> Option<
    Result<(), Seq<char>>,
> {
    match verdict {
        Some(outcome) => Some(outcome_view(outcome)),
        None => None,
    }
}

fn about_id(start: &str, expected_id: u64) -> (whole: String)
    ensures
        whole@ == start@ + text::decimal(expected_id as nat),
{
    joined(start, text::decimal_text(expected_id).as_str())
}

/// What a message, parsed, makes of the command that waits for its reply.
pub fn judge_reply(expected_id: u64, reply: &serde_json::Value) -> (found: Option<
    Result<(), String>,
>)
    ensures
        verdict_view(found) == reply_verdict(expected_id, json::json_of(*reply)),
{
    let id: Option<u64> = match json::get(reply, "id") {
        Some(entry) => entry.as_u64(),
        None => None,
    };
    match id {
        Some(id) => if id != expected_id {
            return None;
        },
        None => {
            return None;
        },
    }
    if let Some(error) = json::get(reply, "error") {
        let mut message = about_id("CDP error for id=", expected_id);
        message.append(": ");
        message.append(json::to_text(error).as_str());
        return Some(Err(message));
    }
    let exception: Option<&serde_json::Value> = match json::get(reply, "result") {
        Some(result) => json::get(result, "exceptionDetails"),
        None => None,
    };
    if let Some(exception) = exception {
        let mut message = about_id("CDP exception for id=", expected_id);
        message.append(": ");
        message.append(json::to_text(exception).as_str());
        return Some(Err(message));
    }
    Some(Ok(()))
}

/// Whether the time for a reply is over, by the milliseconds waited so far, of which
/// one that has begun counts.
pub fn wait_is_over(waited_millis: u64) -> (over: bool)
    ensures
        over == (waited_millis > RESPONSE_TIMEOUT_MILLIS),
        over == (waited_millis > 8_000),
{
    waited_millis > RESPONSE_TIMEOUT_MILLIS
}

/// What an arrival makes of the command that waits for its reply: nothing where
/// the wait goes on.
pub fn drain_until_response(expected_id: u64, arrival: Arrival) -> (found: Option<
    Result<(), String>,
>)
    ensures
        verdict_view(found) == verdict(expected_id, arrival@),
{
    match arrival {
        Arrival::DeadlinePassed => Some(
            Err(about_id("CDP response timeout for id=", expected_id)),
        ),
        Arrival::Text(text) => match json::parse(text.as_str()) {
            Some(reply) => judge_reply(expected_id, &reply),
            None => None,
        },
        Arrival::Failed(e) => Some(Err(joined("CDP read error: ", e.as_str()))),
        Arrival::Closed => Some(Err("CDP connection closed".to_owned())),
        Arrival::Idle => None,
        Arrival::Other => None,
    }
}

/// What to do once several things were done or failed, one after the other.
pub open spec fn after_outcomes(
    step: InjectionView,
    outcomes: Seq<Result<(), Seq<char>>>,
) -> InjectionView
    decreases outcomes.len(),
{
    if outcomes.len() == 0 {
        step
    } else {
        after_outcomes(after_outcome(step, outcomes[0]), outcomes.drop_first())
    }
}

proof fn lemma_done_stays(result: Result<(), Seq<char>>, outcomes: Seq<Result<(), Seq<char>>>)
    ensures
        after_outcomes(InjectionView::Done(result), outcomes) == InjectionView::Done(result),
    decreases outcomes.len(),
{
    if outcomes.len() > 0 {
        lemma_done_stays(result, outcomes.drop_first());
    }
}

/// How many things are left to do when all goes well.
pub open spec fn steps_left(step: InjectionView) -> nat {
    match step {
        InjectionView::Connect => 8,
        InjectionView::Send(Command::EnablePage) => 7,
        InjectionView::Await(Command::EnablePage) => 6,
        InjectionView::Send(Command::AddScript) => 5,
        InjectionView::Await(Command::AddScript) => 4,
        InjectionView::Send(Command::Evaluate) => 3,
        InjectionView::Await(Command::Evaluate) => 2,
        InjectionView::Close => 1,
        InjectionView::Done(_) => 0,
    }
}

/// From any step on, the script gets into the page exactly where all that is left
/// to do goes well: to connect to the debugger, to send each command and to have
/// its reply without an error. Only whether the connection can be closed, which
/// comes last, does not count.
pub proof fn law_injected_iff_all_went_well(
    step: InjectionView,
    outcomes: Seq<Result<(), Seq<char>>>,
)
    requires
        !(step is Done),
        outcomes.len() == steps_left(step),
    ensures
        after_outcomes(step, outcomes) is Done,
        after_outcomes(step, outcomes) == InjectionView::Done(Ok::<(), Seq<char>>(())) <==> forall|
            i: int,
        |
            0 <= i < outcomes.len() - 1 ==> (#[trigger] outcomes[i]) is Ok,
    decreases steps_left(step),
{
    reveal_with_fuel(after_outcomes, 2);
    let next = after_outcome(step, outcomes[0]);
    let rest = outcomes.drop_first();
    if let InjectionView::Done(result) = next {
        lemma_done_stays(result, rest);
    } else {
        law_injected_iff_all_went_well(next, rest);
        assert forall|i: int| 0 <= i < rest.len() - 1 implies (#[trigger] rest[i]) == outcomes[i
            + 1] by {}
        if forall|i: int| 0 <= i < rest.len() - 1 ==> (#[trigger] rest[i]) is Ok {
            assert forall|i: int| 0 <= i < outcomes.len() - 1 implies (#[trigger] outcomes[i]) is Ok by {
                if i > 0 {
                    assert(rest[i - 1] is Ok);
                }
            }
        }
        if forall|i: int| 0 <= i < outcomes.len() - 1 ==> (#[trigger] outcomes[i]) is Ok {
            assert forall|i: int| 0 <= i < rest.len() - 1 implies (#[trigger] rest[i]) is Ok by {
                assert(outcomes[i + 1] is Ok);
            }
        }
    }
}

/// The verdict on a command, from all that arrives: that of the first arrival that
/// has one.
pub open spec fn first_verdict(expected_id: u64, arrivals: Seq<ArrivalView>) -> Option<
    Result<(), Seq<char>>,
>
    decreases arrivals.len(),
{
    if arrivals.len() == 0 {
        None
    } else if verdict(expected_id, arrivals[0]) is Some {
        verdict(expected_id, arrivals[0])
    } else {
        first_verdict(expected_id, arrivals.drop_first())
    }
}

/// A message that is no JSON, or has not the id of the command, decides nothing.
pub proof fn law_other_messages_decide_nothing(expected_id: u64, message: Seq<char>)
    requires
        match json::json_parsed(message) {
            Some(reply) => json::field(reply, "id"@) != Some(json::integer(expected_id as int)),
            None => true,
        },
    ensures
        verdict(expected_id, ArrivalView::Text(message)) is None,
{
}

/// Arrivals that decide nothing are passed over, however many there are.
pub proof fn law_undecided_arrivals_are_passed_over(
    expected_id: u64,
    undecided: Seq<ArrivalView>,
    rest: Seq<ArrivalView>,
)
    requires
        forall|i: int|
            0 <= i < undecided.len() ==> verdict(expected_id, #[trigger] undecided[i]) is None,
    ensures
        first_verdict(expected_id, undecided + rest) == first_verdict(expected_id, rest),
    decreases undecided.len(),
{
    if undecided.len() == 0 {
        assert(undecided + rest =~= rest);
    } else {
        let fewer = undecided.drop_first();
        assert forall|i: int| 0 <= i < fewer.len() implies verdict(
            expected_id,
            #[trigger] fewer[i],
        ) is None by {
            assert(fewer[i] == undecided[i + 1]);
        }
        law_undecided_arrivals_are_passed_over(expected_id, fewer, rest);
        assert((undecided + rest).drop_first() =~= fewer + rest);
        assert(verdict(expected_id, undecided[0]) is None);
    }
}

/// Whether an arrival is the reply to a command.
pub open spec fn is_reply(expected_id: u64, arrival: ArrivalView) -> bool {
    &&& arrival matches ArrivalView::Text(message)
    &&& json::json_parsed(message) matches Some(reply)
    &&& json::field(reply, "id"@) == Some(json::integer(expected_id as int))
}

/// Without its reply no command succeeds, whatever else arrives.
pub proof fn law_only_the_reply_succeeds(expected_id: u64, arrivals: Seq<ArrivalView>)
    requires
        forall|i: int| 0 <= i < arrivals.len() ==> !is_reply(expected_id, #[trigger] arrivals[i]),
    ensures
        first_verdict(expected_id, arrivals) != Some(Ok::<(), Seq<char>>(())),
    decreases arrivals.len(),
{
    if arrivals.len() > 0 {
        let fewer = arrivals.drop_first();
        assert forall|i: int| 0 <= i < fewer.len() implies !is_reply(
            expected_id,
            #[trigger] fewer[i],
        ) by {
            assert(fewer[i] == arrivals[i + 1]);
        }
        assert(!is_reply(expected_id, arrivals[0]));
        law_only_the_reply_succeeds(expected_id, fewer);
    }
}

/// One look at the connection: how long the reply had been waited for by then, and
/// what a read of the connection would bring.
pub struct Look {
    pub waited_millis: u64,
    pub arrival: ArrivalView,
}

impl Look {
    /// Whether it comes when the time for the reply is over.
    pub open spec fn is_late(self) -> bool {
        self.waited_millis > RESPONSE_TIMEOUT_MILLIS
    }

    /// What it finds: once the time is over, the connection is not read any more.
    pub open spec fn finding(self) -> ArrivalView {
        if self.is_late() {
            ArrivalView::DeadlinePassed
        } else {
            self.arrival
        }
    }
}

/// What the looks find, one after the other.
pub open spec fn findings(looks: Seq<Look>) -> Seq<ArrivalView> {
    Seq::new(looks.len(), |i: int| looks[i].finding())
}

/// A command that nothing decides ends in a timeout at the first look for which the
/// time is over, however much else arrived before, and not sooner.
pub proof fn law_unanswered_command_times_out(expected_id: u64, looks: Seq<Look>)
    requires
        forall|i: int|
            0 <= i < looks.len() ==> verdict(expected_id, (#[trigger] looks[i]).arrival) is None,
    ensures
        first_verdict(expected_id, findings(looks)) == (if exists|i: int|
            0 <= i < looks.len() && (#[trigger] looks[i]).is_late() {
            Some(
                Err::<(), Seq<char>>(
                    "CDP response timeout for id="@ + text::decimal(expected_id as nat),
                ),
            )
        } else {
            None
        }),
    decreases looks.len(),
{
    if looks.len() > 0 {
        let fewer = looks.drop_first();
        assert forall|i: int| 0 <= i < fewer.len() implies verdict(
            expected_id,
            (#[trigger] fewer[i]).arrival,
        ) is None by {
            assert(fewer[i] == looks[i + 1]);
        }
        law_unanswered_command_times_out(expected_id, fewer);
        assert(findings(looks).drop_first() =~= findings(fewer));
        assert(findings(looks)[0] == looks[0].finding());
        assert(verdict(expected_id, looks[0].arrival) is None);
        if !looks[0].is_late() {
            if exists|i: int| 0 <= i < looks.len() && (#[trigger] looks[i]).is_late() {
                let late = choose|i: int| 0 <= i < looks.len() && (#[trigger] looks[i]).is_late();
                assert(fewer[late - 1].is_late());
            }
            if exists|i: int| 0 <= i < fewer.len() && (#[trigger] fewer[i]).is_late() {
                let late = choose|i: int| 0 <= i < fewer.len() && (#[trigger] fewer[i]).is_late();
                assert(looks[late + 1].is_late());
            }
        }
    }
}

/// Where no more than the time of one read of the connection lies before each look,
/// the look that ends the wait comes no later than one read after the time is over.
pub proof fn law_timeout_is_prompt(looks: Seq<Look>, end: int)
    requires
        0 <= end < looks.len(),
        looks[0].waited_millis <= READ_TIMEOUT_MILLIS,
        forall|i: int|
            0 < i < looks.len() ==> (#[trigger] looks[i]).waited_millis <= looks[i
                - 1].waited_millis + READ_TIMEOUT_MILLIS,
        forall|i: int| 0 <= i < end ==> !(#[trigger] looks[i]).is_late(),
    ensures
        looks[end].waited_millis <= RESPONSE_TIMEOUT_MILLIS + READ_TIMEOUT_MILLIS,
{
    if end > 0 {
        assert(!looks[end - 1].is_late());
    }
}

/// The list of pages is asked for exactly where the port is known, and read exactly
/// where the status of the answer is from 200 to 299; else the error says so, with
/// the status.
pub proof fn law_page_list_needs_port_and_success(cdp_port: u16, status: u16)
    ensures
        cdp_port > 0 ==> port_error(cdp_port) is None,
        port_error(0) == Some("CDP port not ready"@),
        200 <= status <= 299 ==> answer_error(status) is None,
        status <= 199 || status >= 300 ==> (answer_error(status) matches Some(e) && (
        "CDP /json/list returned "@ + text::decimal(status as nat) + " "@).is_prefix_of(e)),
{
    if status <= 199 || status >= 300 {
        let start = "CDP /json/list returned "@ + text::decimal(status as nat) + " "@;
        assert(answer_error(status)->Some_0 =~= start + status_reason(status));
    }
}

/// A command has its id, its method and its parameters, and nothing else.
pub proof fn law_message_has_id_method_and_params(
    id: u64,
    method: Seq<char>,
    params: Json,
    key: Seq<char>,
)
    ensures
        json::field(message(id, method, params), "id"@) == Some(
            Json::Number(json::JsonNumber::Integer(id as int)),
        ),
        json::field(message(id, method, params), "method"@) == Some(Json::Text(method)),
        json::field(message(id, method, params), "params"@) == Some(params),
        key != "id"@ && key != "method"@ && key != "params"@ ==> json::field(
            message(id, method, params),
            key,
        ) is None,
{
    reveal_strlit("id");
    reveal_strlit("method");
    reveal_strlit("params");
    assert("method"@[0] != "params"@[0]);
    assert("id"@.len() < "method"@.len());
}

/// What each command asks for. The page's events are switched on without
/// parameters; the script is the `source` that every new document is to run, and the
/// `expression` that the present one runs.
pub proof fn law_commands_carry_the_script(command: Command)
    ensures
        json::field(command.content(), "id"@) == Some(
            Json::Number(json::JsonNumber::Integer(command.spec_id() as int)),
        ),
        ({
            let method = json::field(command.content(), "method"@);
            let params = json::field(command.content(), "params"@);
            let script = Json::Text(pet_focus::ANTI_FOCUS_SCRIPT@);
            match command {
                Command::EnablePage => {
                    &&& command.spec_id() == 1
                    &&& method == Some(Json::Text("Page.enable"@))
                    &&& params == Some(Json::Object(Map::empty()))
                },
                Command::AddScript => {
                    &&& command.spec_id() == 2
                    &&& method == Some(Json::Text("Page.addScriptToEvaluateOnNewDocument"@))
                    &&& json::field_of(params, "source"@) == Some(script)
                    &&& forall|key: Seq<char>|
                        key != "source"@ ==> (#[trigger] json::field_of(params, key)) is None
                },
                Command::Evaluate => {
                    &&& command.spec_id() == 3
                    &&& method == Some(Json::Text("Runtime.evaluate"@))
                    &&& json::field_of(params, "expression"@) == Some(script)
                    &&& json::field_of(params, "returnByValue"@) == Some(Json::Bool(true))
                    &&& forall|key: Seq<char>|
                        key != "expression"@ && key != "returnByValue"@ ==> (
                        #[trigger] json::field_of(params, key)) is None
                },
            }
        }),
{
    reveal_strlit("id");
    reveal_strlit("method");
    reveal_strlit("params");
    reveal_strlit("expression");
    reveal_strlit("returnByValue");
    assert("method"@[0] != "params"@[0]);
    assert("id"@.len() < "method"@.len());
    assert("expression"@.len() < "returnByValue"@.len());
}

/// No two commands have the same id, so a reply belongs to one command only.
pub proof fn law_command_ids_differ(command: Command, other: Command)
    requires
        command != other,
    ensures
        command.spec_id() != other.spec_id(),
{
}

/// Where all goes well, the connection is made, each command is sent and its reply
/// awaited before the next, the present document runs the script after new ones are
/// set to, and the connection is closed.
pub proof fn law_commands_go_in_order(outcomes: Seq<Result<(), Seq<char>>>)
    requires
        outcomes.len() == 8,
        forall|i: int| 0 <= i < 8 ==> (#[trigger] outcomes[i]) is Ok,
    ensures
        ({
            let after = |n: int| after_outcomes(InjectionView::Connect, outcomes.take(n));
            &&& after(0) == InjectionView::Connect
            &&& after(1) == InjectionView::Send(Command::EnablePage)
            &&& after(2) == InjectionView::Await(Command::EnablePage)
            &&& after(3) == InjectionView::Send(Command::AddScript)
            &&& after(4) == InjectionView::Await(Command::AddScript)
            &&& after(5) == InjectionView::Send(Command::Evaluate)
            &&& after(6) == InjectionView::Await(Command::Evaluate)
            &&& after(7) == InjectionView::Close
            &&& after(8) == InjectionView::Done(Ok::<(), Seq<char>>(()))
        }),
{
    assert forall|n: int| 0 < n <= 8 implies #[trigger] after_outcomes(
        InjectionView::Connect,
        outcomes.take(n),
    ) == after_outcome(
        after_outcomes(InjectionView::Connect, outcomes.take(n - 1)),
        outcomes[n - 1],
    ) by {
        assert(outcomes.take(n) =~= outcomes.take(n - 1).push(outcomes[n - 1]));
        lemma_one_outcome_more(
            InjectionView::Connect,
            outcomes.take(n - 1),
            outcomes[n - 1],
        );
    }
    assert(outcomes.take(0).len() == 0);
    assert(outcomes[0] is Ok && outcomes[1] is Ok && outcomes[2] is Ok && outcomes[3] is Ok);
    assert(outcomes[4] is Ok && outcomes[5] is Ok && outcomes[6] is Ok && outcomes[7] is Ok);
}

proof fn lemma_one_outcome_more(
    step: InjectionView,
    outcomes: Seq<Result<(), Seq<char>>>,
    last: Result<(), Seq<char>>,
)
    ensures
        after_outcomes(step, outcomes.push(last)) == after_outcome(
            after_outcomes(step, outcomes),
            last,
        ),
    decreases outcomes.len(),
{
    let longer = outcomes.push(last);
    if outcomes.len() == 0 {
        assert(longer.drop_first().len() == 0);
        assert(after_outcomes(after_outcome(step, last), longer.drop_first()) == after_outcome(
            step,
            last,
        ));
    } else {
        assert(longer.drop_first() =~= outcomes.drop_first().push(last));
        lemma_one_outcome_more(
            after_outcome(step, outcomes[0]),
            outcomes.drop_first(),
            last,
        );
    }
}

/// The first failure ends the injection with an error that says what failed and why;
/// one to close the connection does not count, and what is over stays over.
pub proof fn law_first_failure_is_told(
    e: Seq<char>,
    command: Command,
    result: Result<(), Seq<char>>,
    outcome: Result<(), Seq<char>>,
)
    ensures
        ({
            let failed = Err::<(), Seq<char>>(e);
            let over = |error: Seq<char>| InjectionView::Done(Err::<(), Seq<char>>(error));
            &&& after_outcome(InjectionView::Connect, failed) == over(
                "CDP websocket connect failed: "@ + e,
            )
            &&& after_outcome(InjectionView::Send(Command::EnablePage), failed) == over(
                "CDP Page.enable send failed: "@ + e,
            )
            &&& after_outcome(InjectionView::Send(Command::AddScript), failed) == over(
                "CDP addScript send failed: "@ + e,
            )
            &&& after_outcome(InjectionView::Send(Command::Evaluate), failed) == over(
                "CDP Runtime.evaluate send failed: "@ + e,
            )
            &&& after_outcome(InjectionView::Await(command), failed) == over(e)
            &&& after_outcome(InjectionView::Close, outcome) == InjectionView::Done(
                Ok::<(), Seq<char>>(()),
            )
            &&& after_outcome(InjectionView::Done(result), outcome) == InjectionView::Done(result)
        }),
{
}

/// What the reply to a command decides, whatever else it holds: an `error` fails the
/// command with the text of that entry; without one, `exceptionDetails` in its
/// `result` fail it with theirs; any other reply is a success.
pub proof fn law_reply_decides(expected_id: u64, arrived: Seq<char>, reply: Json)
    requires
        json::json_parsed(arrived) == Some(reply),
        json::field(reply, "id"@) == Some(
            Json::Number(json::JsonNumber::Integer(expected_id as int)),
        ),
    ensures
        ({
            let found = verdict(expected_id, ArrivalView::Text(arrived));
            let error = json::field(reply, "error"@);
            let exception = json::field_of(json::field(reply, "result"@), "exceptionDetails"@);
            &&& error matches Some(e) ==> found == Some(
                Err::<(), Seq<char>>(
                    "CDP error for id="@ + text::decimal(expected_id as nat) + ": "@
                        + json::json_text(e),
                ),
            )
            &&& error is None ==> (exception matches Some(e) ==> found == Some(
                Err::<(), Seq<char>>(
                    "CDP exception for id="@ + text::decimal(expected_id as nat) + ": "@
                        + json::json_text(e),
                ),
            ))
            &&& error is None && exception is None ==> found == Some(Ok::<(), Seq<char>>(()))
        }),
{
}

/// What ends the wait besides a reply: a connection that cannot be read or was
/// closed, and the time. That nothing came for a while, or a message that is no
/// text, does not end it, and no message does that is no JSON or has another `id`
/// or none.
pub proof fn law_what_ends_the_wait(expected_id: u64, arrived: Seq<char>, e: Seq<char>)
    ensures
        verdict(expected_id, ArrivalView::Failed(e)) == Some(
            Err::<(), Seq<char>>("CDP read error: "@ + e),
        ),
        verdict(expected_id, ArrivalView::Closed) == Some(
            Err::<(), Seq<char>>("CDP connection closed"@),
        ),
        verdict(expected_id, ArrivalView::DeadlinePassed) == Some(
            Err::<(), Seq<char>>(
                "CDP response timeout for id="@ + text::decimal(expected_id as nat),
            ),
        ),
        verdict(expected_id, ArrivalView::Idle) is None,
        verdict(expected_id, ArrivalView::Other) is None,
        json::json_parsed(arrived) is None ==> verdict(
            expected_id,
            ArrivalView::Text(arrived),
        ) is None,
        json::json_parsed(arrived) matches Some(reply) ==> json::field(reply, "id"@) != Some(
            Json::Number(json::JsonNumber::Integer(expected_id as int)),
        ) ==> verdict(expected_id, ArrivalView::Text(arrived)) is None,
{
}

/// A reply is waited for eight seconds and no less, and the connection is read for
/// half a second at a time.
pub proof fn law_a_reply_has_eight_seconds(look: Look)
    ensures
        look.waited_millis <= 8_000 ==> look.finding() == look.arrival,
        look.waited_millis > 8_000 ==> look.finding() == ArrivalView::DeadlinePassed,
        RESPONSE_TIMEOUT_MILLIS == 8_000,
        READ_TIMEOUT_MILLIS == 500,
{
}

} // verus!
