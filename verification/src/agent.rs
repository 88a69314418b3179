//! The desktop agent: it polls the bot's web service for input actions
//! (mouse clicks and key presses) and plays them on the streamer's machine.
use crate::action::{CallView, HttpCall, Method, Service};
use crate::text::{concat2, concat4, same_text};
use crate::types::{AgentAction, AgentRsp};
use vstd::prelude::*;

verus! {

/// The agent's own version.
pub open spec fn agent_version() -> Seq<char> {
    "1.0.0"@
}

/// Whether version `theirs` is newer than `ours` under semantic versioning,
/// when both parse (`semver::Version::parse`, then `>`).
pub uninterp spec fn semver_newer(ours: Seq<char>, theirs: Seq<char>) -> Option<bool>;

/// `semver::Version::parse` of both versions, then `theirs > ours`
/// (`semver_newer`).
#[verifier::external_body]
fn version_is_newer(ours: &str, theirs: &str) -> (r: Option<bool>)
    ensures
        r == semver_newer(ours@, theirs@),
{
    match (semver::Version::parse(ours), semver::Version::parse(theirs)) {
        (Ok(a), Ok(b)) => Some(b > a),
        _ => None,
    }
}

/// The agent's poll of the web service at `base_url`.
pub fn agent_poll(base_url: &str, channel: &str, key: &str) -> (r: HttpCall)
    ensures
        r.view_call() == (CallView {
            method: Method::Post,
            service: Service::Plain,
            url: base_url@ + "/api/agent"@,
            content_type: Some("application/x-www-form-urlencoded"@),
            body: Some("channel="@ + channel@ + "&key="@ + key@),
        }),
{
    HttpCall {
        method: Method::Post,
        service: Service::Plain,
        url: concat2(base_url, "/api/agent"),
        content_type: Some("application/x-www-form-urlencoded".to_owned()),
        body: Some(concat4("channel=", channel, "&key=", key)),
    }
}

/// The flag of a mouse event that presses the left button.
pub open spec fn left_down() -> u32 {
    2
}

/// The flag of a mouse event that releases the left button.
pub open spec fn left_up() -> u32 {
    4
}

/// The flag of a key event given by scan code.
pub open spec fn scan_code() -> u32 {
    8
}

/// The flag of a key event that releases the key.
pub open spec fn key_up() -> u32 {
    2
}

/// A mouse event to send: its flags, with no movement.
pub struct MouseInput {
    pub flags: u32,
    pub dx: i32,
    pub dy: i32,
    pub data: u32,
}

/// A key event to send: the key's scan code and the event's flags.
pub struct KeyInput {
    pub scan: u16,
    pub virtual_key: u16,
    pub flags: u32,
}

/// The mouse event with flags `flag`.
pub fn press_mouse(flag: u32) -> (r: MouseInput)
    ensures
        r.flags == flag && r.dx == 0 && r.dy == 0 && r.data == 0,
{
    MouseInput { flags: flag, dx: 0, dy: 0, data: 0 }
}

/// The key event for scan code `key`. Every key event is sent as a
/// scan-code press, whatever `flag` asks: a release is never sent.
pub fn press_key(key: u8, flag: u32) -> (r: KeyInput)
    ensures
        r.scan == key as u16 && r.virtual_key == 0 && r.flags == scan_code(),
{
    KeyInput { scan: key as u16, virtual_key: 0, flags: 8 }
}

/// One thing the agent does.
pub enum AgentStep {
    Print(String),
    Mouse(MouseInput),
    Key(KeyInput),
    WaitMillis(u64),
    /// Stop polling.
    Stop,
}

/// The model of a step: a mouse event's flags, movement and data, a key
/// event's scan code, virtual key and flags.
pub enum StepView {
    Print(Seq<char>),
    Mouse(u32, i32, i32, u32),
    Key(u16, u16, u32),
    WaitMillis(nat),
    Stop,
}

impl AgentStep {
    pub open spec fn view_step(&self) -> StepView {
        match self {
            AgentStep::Print(s) => StepView::Print(s@),
            AgentStep::Mouse(m) => StepView::Mouse(m.flags, m.dx, m.dy, m.data),
            AgentStep::Key(k) => StepView::Key(k.scan, k.virtual_key, k.flags),
            AgentStep::WaitMillis(n) => StepView::WaitMillis(*n as nat),
            AgentStep::Stop => StepView::Stop,
        }
    }
}

/// The models of steps.
pub open spec fn steps_view(s: Seq<AgentStep>) -> Seq<StepView> {
    s.map_values(|a: AgentStep| a.view_step())
}

/// The key events for `keys`, in order: scan-code presses, with no
/// virtual key.
pub open spec fn key_steps(keys: Seq<u8>) -> Seq<StepView> {
    keys.map_values(|k: u8| StepView::Key(k as u16, 0, scan_code()))
}

/// A mouse event with flags `flag` and no movement or data.
pub open spec fn mouse_step(flag: u32) -> StepView {
    StepView::Mouse(flag, 0, 0, 0)
}

/// What the agent does for one action: it names the action, plays it (a
/// click held `hold` tenths of a second, or the keys pressed for a tenth of
/// a second), and waits `delay` tenths of a second.
pub open spec fn action_steps(a: AgentAction) -> Seq<StepView> {
    let play = if a.name@ == "MOUSE"@ {
        seq![mouse_step(left_down()), StepView::WaitMillis(100 * a.hold as nat), mouse_step(left_up())]
    } else if a.name@ == "KEYBD"@ {
        key_steps(a.keys@) + seq![StepView::WaitMillis(100)] + key_steps(a.keys@)
    } else {
        seq![]
    };
    seq![StepView::Print("received action: "@ + a.name@)] + play + seq![StepView::WaitMillis(100 * a.delay as nat)]
}

/// What the agent does for a list of actions.
pub open spec fn actions_steps(acts: Seq<AgentAction>) -> Seq<StepView>
    decreases acts.len(),
{
    if acts.len() == 0 {
        seq![]
    } else {
        actions_steps(acts.drop_last()) + action_steps(acts.last())
    }
}

/// What the agent does with the service's answer: it stops when the
/// service runs a newer version, plays the actions of a successful
/// answer, and prints the error of a failed one. Nothing happens when a
/// version does not parse.
pub open spec fn answer_steps(rsp: AgentRsp) -> Seq<StepView> {
    match semver_newer(agent_version(), rsp.version@) {
        None => seq![],
        Some(true) => seq![StepView::Print("version error: your client is out of date"@), StepView::Stop],
        Some(false) => if rsp.success {
            actions_steps(rsp.actions@)
        } else {
            match rsp.error_message {
                Some(m) => seq![StepView::Print("response error: "@ + m@)],
                None => seq![],
            }
        },
    }
}

fn push_step(v: &mut Vec<AgentStep>, s: AgentStep)
    ensures
        steps_view(final(v)@) == steps_view(old(v)@).push(s.view_step()),
{
    v.push(s);
    assert(steps_view(v@) =~= steps_view(old(v)@).push(s.view_step()));
}

fn push_keys(v: &mut Vec<AgentStep>, keys: &Vec<u8>)
    ensures
        steps_view(final(v)@) == steps_view(old(v)@) + key_steps(keys@),
{
    let ghost start = steps_view(v@);
    let mut i: usize = 0;
    while i < keys.len()
        invariant
            i <= keys.len(),
            steps_view(v@) == start + key_steps(keys@.take(i as int)),
        decreases keys.len() - i,
    {
        push_step(v, AgentStep::Key(press_key(keys[i], 8)));
        assert(key_steps(keys@.take(i + 1)) =~= key_steps(keys@.take(i as int)).push(StepView::Key(keys@[i as int] as u16, 0, scan_code())));
        i = i + 1;
    }
    assert(keys@.take(keys.len() as int) =~= keys@);
}

/// The agent's steps for one action.
pub fn play_action(v: &mut Vec<AgentStep>, a: &AgentAction)
    ensures
        steps_view(final(v)@) == steps_view(old(v)@) + action_steps(*a),
{
    let ghost start = steps_view(v@);
    push_step(v, AgentStep::Print(concat2("received action: ", a.name.as_str())));
    let ghost mid = steps_view(v@);
    if same_text(a.name.as_str(), "MOUSE") {
        push_step(v, AgentStep::Mouse(press_mouse(2)));
        push_step(v, AgentStep::WaitMillis(100 * a.hold as u64));
        push_step(v, AgentStep::Mouse(press_mouse(4)));
    } else if same_text(a.name.as_str(), "KEYBD") {
        push_keys(v, &a.keys);
        push_step(v, AgentStep::WaitMillis(100));
        push_keys(v, &a.keys);
    }
    push_step(v, AgentStep::WaitMillis(100 * a.delay as u64));
    assert(steps_view(v@) =~= start + action_steps(*a));
}

/// The agent's steps for the service's answer.
pub fn agent_answer(rsp: &AgentRsp) -> (r: Vec<AgentStep>)
    ensures
        steps_view(r@) == answer_steps(*rsp),
{
    let mut r: Vec<AgentStep> = Vec::new();
    match version_is_newer("1.0.0", rsp.version.as_str()) {
        None => {},
        Some(true) => {
            push_step(&mut r, AgentStep::Print("version error: your client is out of date".to_owned()));
            push_step(&mut r, AgentStep::Stop);
        },
        Some(false) => {
            if rsp.success {
                let mut i: usize = 0;
                while i < rsp.actions.len()
                    invariant
                        i <= rsp.actions.len(),
                        steps_view(r@) == actions_steps(rsp.actions@.take(i as int)),
                    decreases rsp.actions.len() - i,
                {
                    assert(rsp.actions@.take(i + 1).drop_last() =~= rsp.actions@.take(i as int));
                    play_action(&mut r, &rsp.actions[i]);
                    i = i + 1;
                }
                assert(rsp.actions@.take(rsp.actions.len() as int) =~= rsp.actions@);
            } else {
                match &rsp.error_message {
                    Some(m) => push_step(&mut r, AgentStep::Print(concat2("response error: ", m.as_str()))),
                    None => {},
                }
            }
        },
    }
    proof {
        reveal_strlit("1.0.0");
    }
    assert(steps_view(r@) =~= answer_steps(*rsp));
    r
}

} // verus!
