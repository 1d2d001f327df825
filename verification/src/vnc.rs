//! What the driver asks of the graphical console, and the wait for a needle.
//!
//! The wait is a retry loop under a deadline. Its decisions are made here; the
//! caller takes the screenshots, loads the needle, sleeps and sends the mouse
//! events that the decisions ask for.

use crate::evloop::deadline_after;
use crate::key::{key_of, keysym, KEY_MINUS};
use crate::msg::{MsgRes, MsgResError, VNC};
use crate::needle::{needle_matches, weakest_match, Area, Needle, NeedleView, PngView, PNG};
use crate::text::{chars_of, decimal_digits, push_decimal};
use vstd::prelude::*;
use vstd::slice::slice_subrange;
use vstd::string::StringExecFns;

verus! {

/// Pause between two looks at the screen, in milliseconds.
pub const RETRY_MS: u64 = 200;

/// Pause that lets the pointer settle around a click, in milliseconds.
pub const SETTLE_MS: u64 = 1000;

/// The button mask of the left mouse button.
pub const LEFT_BUTTON: u8 = 1;

/// The button mask of the right mouse button.
pub const RIGHT_BUTTON: u8 = 4;

/// A request to the connection that holds the framebuffer.
#[derive(Debug)]
pub enum VNCEventReq {
    TakeScreenShot(String),
    GetScreenShot,
    Refresh,
    MouseMove(u16, u16),
    MouseDrag(u16, u16),
    MouseClick(u8),
    MouseHide,
    MoveDown(u8),
    MoveUp(u8),
    SendKey { keys: Vec<u32> },
    TypeString(String),
}

/// The answer to a [`VNCEventReq`].
#[derive(Debug)]
pub enum VNCEventRes {
    Done,
    Screen(PNG),
}

/// The key codes of the tokens of `s` from position `i` on, where the token
/// that `i` stands in began at `start`: tokens are parted by `-`, and a token
/// that names no key is left out.
pub open spec fn codes_from(s: Seq<char>, start: int, i: int) -> Seq<u32>
    decreases s.len() - i,
{
    if i < start || start < 0 {
        Seq::<u32>::empty()
    } else if i >= s.len() {
        code_seq(s.subrange(start, s.len() as int))
    } else if s[i] == '-' {
        code_seq(s.subrange(start, i)) + codes_from(s, i + 1, i + 1)
    } else {
        codes_from(s, start, i + 1)
    }
}

/// The key code of one token, as a sequence of one or none.
pub open spec fn code_seq(token: Seq<char>) -> Seq<u32> {
    match keysym(token) {
        Some(code) => seq![code],
        None => Seq::<u32>::empty(),
    }
}

/// The key codes that a key combination stands for. The text `-` alone is
/// the minus key. Any other text is a list of key names parted by `-`, and
/// names that name no key are left out.
pub open spec fn key_codes(s: Seq<char>) -> Seq<u32> {
    if s == seq!['-'] {
        seq![KEY_MINUS]
    } else {
        codes_from(s, 0, 0)
    }
}

/// The key codes that the key combination `s` stands for.
pub fn send_key_codes(s: &str) -> (keys: Vec<u32>)
    ensures
        keys@ == key_codes(s@),
{
    let chars = chars_of(s);
    let n: usize = chars.len();
    let mut keys: Vec<u32> = Vec::new();
    if n == 1 && chars[0] == '-' {
        keys.push(KEY_MINUS);
        assert(s@ =~= seq!['-']);
        return keys;
    }
    assert(s@ != seq!['-']) by {
        if s@ == seq!['-'] {
            assert(s@.len() == 1 && s@[0] == '-');
        }
    }
    let mut start: usize = 0;
    let mut i: usize = 0;
    while i < n
        invariant
            chars@ == s@,
            n == chars@.len(),
            start <= i <= n,
            keys@ + codes_from(s@, start as int, i as int) == codes_from(s@, 0, 0),
        decreases n - i,
    {
        if chars[i] == '-' {
            let ghost before = keys@;
            match key_of(slice_subrange(chars.as_slice(), start, i)) {
                Some(code) => keys.push(code),
                None => {},
            }
            assert(keys@ =~= before + code_seq(s@.subrange(start as int, i as int)));
            assert(before + codes_from(s@, start as int, i as int) =~= keys@ + codes_from(
                s@,
                i + 1,
                i + 1,
            ));
            start = i + 1;
        }
        i += 1;
    }
    let ghost before = keys@;
    match key_of(slice_subrange(chars.as_slice(), start, n)) {
        Some(code) => keys.push(code),
        None => {},
    }
    assert(keys@ =~= before + code_seq(s@.subrange(start as int, n as int)));
    keys
}

/// What kind of answer a request to the graphical console expects.
#[derive(Debug, Clone, Copy, PartialEq, Eq, Structural)]
pub enum Expect {
    Done,
    Screen,
}

/// What a request of a script asks of the graphical console: the event to
/// send and the kind of answer to expect. The wait for a needle is no single
/// event.
pub fn event_for(req: VNC) -> (r: Option<(VNCEventReq, Expect)>)
    ensures
        match req {
            VNC::TakeScreenShot => r matches Some((VNCEventReq::TakeScreenShot(name), Expect::Done))
                && name@ == "user"@,
            VNC::GetScreenShot => r == Some((VNCEventReq::GetScreenShot, Expect::Screen)),
            VNC::Refresh => r == Some((VNCEventReq::Refresh, Expect::Screen)),
            VNC::CheckScreen { .. } => r is None,
            VNC::MouseMove { x, y } => r == Some((VNCEventReq::MouseMove(x, y), Expect::Done)),
            VNC::MouseDrag { x, y } => r == Some((VNCEventReq::MouseDrag(x, y), Expect::Done)),
            VNC::MouseHide => r == Some((VNCEventReq::MouseHide, Expect::Done)),
            VNC::MouseClick => r == Some((VNCEventReq::MouseClick(LEFT_BUTTON), Expect::Done)),
            VNC::MouseRClick => r == Some((VNCEventReq::MouseClick(RIGHT_BUTTON), Expect::Done)),
            VNC::MouseKeyDown(down) => r == Some(
                (
                    if down {
                        VNCEventReq::MoveDown(LEFT_BUTTON)
                    } else {
                        VNCEventReq::MoveUp(LEFT_BUTTON)
                    },
                    Expect::Done,
                ),
            ),
            VNC::SendKey(s) => r matches Some((VNCEventReq::SendKey { keys }, Expect::Done))
                && keys@ == key_codes(s@),
            VNC::TypeString(s) => r == Some((VNCEventReq::TypeString(s), Expect::Done)),
        },
{
    match req {
        VNC::TakeScreenShot => Some(
            (VNCEventReq::TakeScreenShot(String::from_str("user")), Expect::Done),
        ),
        VNC::GetScreenShot => Some((VNCEventReq::GetScreenShot, Expect::Screen)),
        VNC::Refresh => Some((VNCEventReq::Refresh, Expect::Screen)),
        VNC::CheckScreen { .. } => None,
        VNC::MouseMove { x, y } => Some((VNCEventReq::MouseMove(x, y), Expect::Done)),
        VNC::MouseDrag { x, y } => Some((VNCEventReq::MouseDrag(x, y), Expect::Done)),
        VNC::MouseHide => Some((VNCEventReq::MouseHide, Expect::Done)),
        VNC::MouseClick => Some((VNCEventReq::MouseClick(LEFT_BUTTON), Expect::Done)),
        VNC::MouseRClick => Some((VNCEventReq::MouseClick(RIGHT_BUTTON), Expect::Done)),
        VNC::MouseKeyDown(down) => Some(
            (
                if down {
                    VNCEventReq::MoveDown(LEFT_BUTTON)
                } else {
                    VNCEventReq::MoveUp(LEFT_BUTTON)
                },
                Expect::Done,
            ),
        ),
        VNC::SendKey(s) => Some(
            (VNCEventReq::SendKey { keys: send_key_codes(s.as_str()) }, Expect::Done),
        ),
        VNC::TypeString(s) => Some((VNCEventReq::TypeString(s), Expect::Done)),
    }
}

/// The tag of the screenshot that is taken after a request has been served.
pub open spec fn screenshot_tag(req: VNC) -> Seq<char> {
    match req {
        VNC::TakeScreenShot | VNC::GetScreenShot => "user"@,
        VNC::Refresh => "refresh"@,
        VNC::CheckScreen { .. } => "checkscreen"@,
        VNC::MouseMove { .. } => "mousemove"@,
        VNC::MouseDrag { .. } => "mousedrag"@,
        VNC::MouseHide => "mousehide"@,
        VNC::MouseClick | VNC::MouseRClick => "mouseclick"@,
        VNC::MouseKeyDown(down) => if down {
            "mousekeydown"@
        } else {
            "mousekeyup"@
        },
        VNC::SendKey(_) => "sendkey"@,
        VNC::TypeString(_) => "typestring"@,
    }
}

/// The tag of the screenshot that is taken after `req` has been served.
pub fn screenshot_name(req: &VNC) -> (name: &'static str)
    ensures
        name@ == screenshot_tag(*req),
{
    match req {
        VNC::TakeScreenShot => "user",
        VNC::GetScreenShot => "user",
        VNC::Refresh => "refresh",
        VNC::CheckScreen { .. } => "checkscreen",
        VNC::MouseMove { .. } => "mousemove",
        VNC::MouseDrag { .. } => "mousedrag",
        VNC::MouseHide => "mousehide",
        VNC::MouseClick => "mouseclick",
        VNC::MouseRClick => "mouseclick",
        VNC::MouseKeyDown(down) => if *down {
            "mousekeydown"
        } else {
            "mousekeyup"
        },
        VNC::SendKey(_) => "sendkey",
        VNC::TypeString(_) => "typestring",
    }
}

/// The answer to the script, from the answer of the graphical console: the
/// kind that was expected is handed on, anything else (no answer too) is a
/// timeout.
pub fn answer_for(expect: Expect, res: Option<VNCEventRes>) -> (r: MsgRes)
    ensures
        match (expect, res) {
            (Expect::Done, Some(VNCEventRes::Done)) => r == MsgRes::Done,
            (Expect::Screen, Some(VNCEventRes::Screen(png))) => r == MsgRes::Screenshot(png),
            _ => r == MsgRes::Error(MsgResError::Timeout),
        },
{
    match (expect, res) {
        (Expect::Done, Some(VNCEventRes::Done)) => MsgRes::Done,
        (Expect::Screen, Some(VNCEventRes::Screen(png))) => MsgRes::Screenshot(png),
        _ => MsgRes::Error(MsgResError::Timeout),
    }
}

/// One thing to do after the screen has shown the needle.
#[derive(Debug, Clone, Copy, PartialEq, Eq, Structural)]
pub enum Step {
    /// Sleep this many milliseconds.
    Sleep(u64),
    MouseMove(u16, u16),
    MouseClick(u8),
    MouseHide,
}

/// Where to click: the click point of the first rectangle, from the `i`-th
/// on, that has one, counted from the corner of the screen and held at the
/// largest coordinate.
pub open spec fn click_target(areas: Seq<Area>, i: int) -> Option<(u16, u16)>
    decreases areas.len() - i,
{
    if i < 0 || i >= areas.len() {
        None
    } else {
        match areas[i].click {
            Some(point) => Some(
                (
                    coordinate(areas[i].left as int + point.left as int),
                    coordinate(areas[i].top as int + point.top as int),
                ),
            ),
            None => click_target(areas, i + 1),
        }
    }
}

/// A coordinate, held at the largest one.
pub open spec fn coordinate(c: int) -> u16 {
    if c > u16::MAX {
        u16::MAX
    } else if c < 0 {
        0
    } else {
        c as u16
    }
}

/// What follows the match, in order.
///
/// After the delay that was asked for: with a click point, a move only moves
/// the pointer there once; a click moves it there, lets it settle, moves it
/// there again, lets it settle, clicks the left button and lets that settle.
/// Without a click point there is nothing to move to. If neither a move nor a
/// click was asked for, the pointer is hidden, so that it does not cover the
/// next screenshot.
pub open spec fn follow_up_steps(
    areas: Seq<Area>,
    click: bool,
    move_only: bool,
    delay: Option<u64>,
) -> Seq<Step> {
    let head = match delay {
        Some(d) => seq![Step::Sleep(d)],
        None => Seq::<Step>::empty(),
    };
    let mouse = match click_target(areas, 0) {
        Some((x, y)) => if move_only {
            seq![Step::MouseMove(x, y)]
        } else if click {
            seq![
                Step::MouseMove(x, y),
                Step::Sleep(SETTLE_MS),
                Step::MouseMove(x, y),
                Step::Sleep(SETTLE_MS),
                Step::MouseClick(LEFT_BUTTON),
                Step::Sleep(SETTLE_MS),
            ]
        } else {
            Seq::<Step>::empty()
        },
        None => Seq::<Step>::empty(),
    };
    let tail = if !move_only && !click {
        seq![Step::MouseHide]
    } else {
        Seq::<Step>::empty()
    };
    head + mouse + tail
}

/// Finds where to click.
fn find_click_target(areas: &[Area]) -> (r: Option<(u16, u16)>)
    ensures
        r == click_target(areas@, 0),
{
    let n: usize = areas.len();
    let mut i: usize = 0;
    while i < n
        invariant
            n == areas@.len(),
            i <= n,
            click_target(areas@, 0) == click_target(areas@, i as int),
        decreases n - i,
    {
        let area = areas[i];
        match area.click {
            Some(point) => {
                return Some(
                    (area.left.saturating_add(point.left), area.top.saturating_add(point.top)),
                );
            },
            None => {},
        }
        i += 1;
    }
    None
}

/// Lists what follows the match.
pub fn plan_follow_up(areas: &[Area], click: bool, move_only: bool, delay: Option<u64>) -> (steps:
    Vec<Step>)
    ensures
        steps@ == follow_up_steps(areas@, click, move_only, delay),
{
    let mut steps: Vec<Step> = Vec::new();
    match delay {
        Some(d) => steps.push(Step::Sleep(d)),
        None => {},
    }
    let ghost head = steps@;
    match find_click_target(areas) {
        Some((x, y)) => {
            if move_only {
                steps.push(Step::MouseMove(x, y));
            } else if click {
                steps.push(Step::MouseMove(x, y));
                steps.push(Step::Sleep(SETTLE_MS));
                steps.push(Step::MouseMove(x, y));
                steps.push(Step::Sleep(SETTLE_MS));
                steps.push(Step::MouseClick(LEFT_BUTTON));
                steps.push(Step::Sleep(SETTLE_MS));
            }
        },
        None => {},
    }
    if !move_only && !click {
        steps.push(Step::MouseHide);
    }
    assert(steps@ =~= follow_up_steps(areas@, click, move_only, delay));
    steps
}

/// What to tell the script when a step could not be done.
pub open spec fn failure_text(step: Step) -> Seq<char> {
    match step {
        Step::MouseClick(_) => "check screen and mouse move success, but mouse click failed"@,
        Step::MouseHide => "check screen success, but mouse hide after click failed"@,
        _ => "check screen success, but mouse move failed"@,
    }
}

/// What the follow-up of a match asks for next.
#[derive(Debug)]
pub enum FollowAction {
    /// Do this step and come back with how it went.
    Do(Step),
    /// The request is over with this answer.
    Finish(MsgRes),
}

/// The follow-up of a match: the steps, and how far they have been done.
pub struct FollowUp {
    steps: Vec<Step>,
    next: usize,
    threshold: u32,
    screen: Ghost<PngView>,
    needle: Ghost<NeedleView>,
}

impl FollowUp {
    #[verifier::type_invariant]
    spec fn inv(&self) -> bool {
        &&& self.next <= self.steps@.len()
        &&& needle_matches(self.screen@, self.needle@, self.threshold)
    }

    /// The steps of this follow-up.
    pub closed spec fn steps(&self) -> Seq<Step> {
        self.steps@
    }

    /// How many steps have been handed out.
    pub closed spec fn done(&self) -> nat {
        self.next as nat
    }

    /// The screenshot that showed the needle.
    pub closed spec fn screen(&self) -> PngView {
        self.screen@
    }

    /// The needle that the screenshot showed.
    pub closed spec fn needle(&self) -> NeedleView {
        self.needle@
    }

    /// The threshold at which the screenshot showed the needle.
    pub closed spec fn threshold(&self) -> u32 {
        self.threshold
    }

    /// Hands out the next step, given how the previous one went (`true` for
    /// the first call and after a sleep).
    ///
    /// A step that failed ends the request with the error that names it. When
    /// every step is done the request is over: `Done`. That answer is given
    /// only for a screenshot that showed the needle at the threshold.
    pub fn advance(&mut self, previous_ok: bool) -> (r: FollowAction)
        ensures
            final(self).steps() == old(self).steps(),
            final(self).screen() == old(self).screen(),
            final(self).needle() == old(self).needle(),
            final(self).threshold() == old(self).threshold(),
            old(self).done() <= old(self).steps().len(),
            needle_matches(old(self).screen(), old(self).needle(), old(self).threshold()),
            !previous_ok && old(self).done() > 0 ==> {
                &&& r matches FollowAction::Finish(res)
                &&& res.is_error_text(failure_text(old(self).steps()[old(self).done() - 1]))
                &&& final(self).done() == old(self).done()
            },
            (previous_ok || old(self).done() == 0) && old(self).done() < old(self).steps().len()
                ==> {
                &&& r == FollowAction::Do(old(self).steps()[old(self).done() as int])
                &&& final(self).done() == old(self).done() + 1
            },
            (previous_ok || old(self).done() == 0) && old(self).done() == old(self).steps().len()
                ==> {
                &&& r == FollowAction::Finish(MsgRes::Done)
                &&& final(self).done() == old(self).done()
            },
    {
        proof {
            use_type_invariant(&*self);
        }
        if !previous_ok && self.next > 0 {
            let msg = match self.steps[self.next - 1] {
                Step::MouseClick(_) => "check screen and mouse move success, but mouse click failed",
                Step::MouseHide => "check screen success, but mouse hide after click failed",
                _ => "check screen success, but mouse move failed",
            };
            return FollowAction::Finish(MsgRes::Error(MsgResError::String(String::from_str(msg))));
        }
        if self.next < self.steps.len() {
            let step = self.steps[self.next];
            self.next = self.next + 1;
            FollowAction::Do(step)
        } else {
            FollowAction::Finish(MsgRes::Done)
        }
    }
}

/// What one look at the screen gave.
#[derive(Debug)]
pub enum Observation {
    /// The graphical console did not answer.
    Failed,
    /// It answered, but not with a screenshot.
    NoScreen,
    /// A screenshot, but the needle could not be loaded.
    NoNeedle,
    /// A screenshot and the needle to hold it against.
    Seen(PNG, Needle),
}

/// How the wait goes on after a look at the screen.
pub enum Next {
    /// Sleep this many milliseconds and look again.
    Retry(u64),
    /// The screen shows the needle: do what follows.
    Act(FollowUp),
    /// The request is over with this answer.
    Fail(MsgRes),
}

/// What a look at the screen comes to: a screenshot to record first, if any,
/// and how the wait goes on.
pub struct Verdict {
    pub screenshot: Option<String>,
    pub next: Next,
}

/// The tag of the screenshot that records attempt `i`.
pub open spec fn attempt_tag(i: nat, suffix: Seq<char>) -> Seq<char> {
    "checkscreen-"@ + decimal_digits(i) + suffix
}

/// Abstract state of a [`CheckScreen`].
pub struct CheckScreenView {
    pub threshold: u32,
    pub click: bool,
    pub move_only: bool,
    pub delay: Option<u64>,
    pub enable_screenshot: bool,
    pub deadline: u64,
    /// How many looks at the screen have begun.
    pub attempts: nat,
    /// The likeness of the last screenshot that was held against the needle.
    pub similarity: u32,
}

/// The wait for a needle.
#[derive(Debug)]
pub struct CheckScreen {
    tag: String,
    threshold: u32,
    click: bool,
    move_only: bool,
    delay: Option<u64>,
    enable_screenshot: bool,
    deadline: u64,
    attempts: u64,
    similarity: u32,
}

impl View for CheckScreen {
    type V = CheckScreenView;

    closed spec fn view(&self) -> CheckScreenView {
        CheckScreenView {
            threshold: self.threshold,
            click: self.click,
            move_only: self.move_only,
            delay: self.delay,
            enable_screenshot: self.enable_screenshot,
            deadline: self.deadline,
            attempts: self.attempts as nat,
            similarity: self.similarity,
        }
    }
}

impl CheckScreen {
    /// The name of the needle that is waited for.
    pub closed spec fn tag_view(&self) -> Seq<char> {
        self.tag@
    }

    /// A wait that starts at `now` and gives up `timeout` milliseconds later.
    pub fn new(
        tag: String,
        threshold: u32,
        timeout: u64,
        click: bool,
        move_only: bool,
        delay: Option<u64>,
        enable_screenshot: bool,
        now: u64,
    ) -> (cs: CheckScreen)
        ensures
            cs.tag_view() == tag@,
            cs@ == (CheckScreenView {
                threshold,
                click,
                move_only,
                delay,
                enable_screenshot,
                deadline: deadline_after(now, timeout),
                attempts: 0,
                similarity: 0,
            }),
    {
        CheckScreen {
            tag,
            threshold,
            click,
            move_only,
            delay,
            enable_screenshot,
            deadline: now.saturating_add(timeout),
            attempts: 0,
            similarity: 0,
        }
    }

    /// The name of the needle that is waited for.
    pub fn tag(&self) -> (tag: &str)
        ensures
            tag@ == self.tag_view(),
    {
        self.tag.as_str()
    }

    /// The likeness of the last screenshot that was held against the needle,
    /// in millionths.
    pub fn similarity(&self) -> (s: u32)
        ensures
            s == self@.similarity,
    {
        self.similarity
    }

    /// Begins the next look at the screen, unless the deadline has passed:
    /// then the wait is over with the error `match timeout`. Attempts are
    /// counted up to the largest number that 64 bits hold.
    pub fn begin_attempt(&mut self, now: u64) -> (r: Option<MsgRes>)
        ensures
            final(self).tag_view() == old(self).tag_view(),
            final(self)@ == (CheckScreenView {
                attempts: if old(self)@.attempts < u64::MAX {
                    old(self)@.attempts + 1
                } else {
                    old(self)@.attempts
                },
                ..old(self)@
            }),
            now > old(self)@.deadline ==> (r matches Some(res) && res.is_error_text(
                "match timeout"@,
            )),
            now <= old(self)@.deadline ==> r is None,
    {
        self.attempts = self.attempts.saturating_add(1);
        if now > self.deadline {
            Some(MsgRes::Error(MsgResError::String(String::from_str("match timeout"))))
        } else {
            None
        }
    }

    /// The tag of the screenshot that records this attempt.
    fn tag_attempt(&self, suffix: &str) -> (name: String)
        ensures
            name@ == attempt_tag(self@.attempts, suffix@),
    {
        let mut name = String::from_str("checkscreen-");
        push_decimal(&mut name, self.attempts);
        name.append(suffix);
        name
    }

    /// Decides how the wait goes on after a look at the screen.
    ///
    /// No answer from the console ends the wait as timed out. An answer that
    /// is no screenshot is passed over. Without the needle the attempt is
    /// recorded as `failed-noneedle`, a screenshot that does not show the
    /// needle as `success`; after any of the three the next look comes after
    /// [`RETRY_MS`], and it is [`CheckScreen::begin_attempt`] that ends the
    /// wait once the deadline has passed. Attempts are recorded only if
    /// screenshots are enabled. A screenshot that shows the needle ends the
    /// looking: what follows is [`follow_up_steps`].
    pub fn observe(&mut self, observation: Observation) -> (v: Verdict)
        ensures
            final(self).tag_view() == old(self).tag_view(),
            match observation {
                Observation::Failed => {
                    &&& v.screenshot is None
                    &&& v.next matches Next::Fail(res)
                    &&& res == MsgRes::Error(MsgResError::Timeout)
                    &&& final(self)@ == old(self)@
                },
                Observation::NoScreen => {
                    &&& v.screenshot is None
                    &&& v.next matches Next::Retry(ms)
                    &&& ms == RETRY_MS
                    &&& final(self)@ == old(self)@
                },
                Observation::NoNeedle => {
                    &&& final(self)@ == old(self)@
                    &&& recorded(
                        v.screenshot,
                        old(self)@.enable_screenshot,
                        attempt_tag(old(self)@.attempts, "-failed-noneedle"@),
                    )
                    &&& v.next matches Next::Retry(ms)
                    &&& ms == RETRY_MS
                },
                Observation::Seen(screen, needle) => {
                    &&& final(self)@ == (CheckScreenView {
                        similarity: weakest_match(
                            screen@,
                            needle@.image,
                            needle@.areas,
                            needle@.areas.len() as int,
                        ) as u32,
                        ..old(self)@
                    })
                    &&& if needle_matches(screen@, needle@, old(self)@.threshold) {
                        &&& v.screenshot is None
                        &&& v.next matches Next::Act(follow)
                        &&& follow.steps() == follow_up_steps(
                            needle@.areas,
                            old(self)@.click,
                            old(self)@.move_only,
                            old(self)@.delay,
                        )
                        &&& follow.done() == 0
                        &&& follow.screen() == screen@
                        &&& follow.needle() == needle@
                        &&& follow.threshold() == old(self)@.threshold
                    } else {
                        &&& recorded(
                            v.screenshot,
                            old(self)@.enable_screenshot,
                            attempt_tag(old(self)@.attempts, "-success"@),
                        )
                        &&& v.next matches Next::Retry(ms)
                        &&& ms == RETRY_MS
                    }
                },
            },
    {
        match observation {
            Observation::Failed => Verdict {
                screenshot: None,
                next: Next::Fail(MsgRes::Error(MsgResError::Timeout)),
            },
            Observation::NoScreen => Verdict { screenshot: None, next: Next::Retry(RETRY_MS) },
            Observation::NoNeedle => {
                let screenshot = if self.enable_screenshot {
                    Some(self.tag_attempt("-failed-noneedle"))
                } else {
                    None
                };
                Verdict { screenshot, next: Next::Retry(RETRY_MS) }
            },
            Observation::Seen(screen, needle) => {
                let (similarity, matched) = Needle::compare(&screen, &needle, self.threshold);
                self.similarity = similarity;
                if matched {
                    let steps = plan_follow_up(
                        needle.areas(),
                        self.click,
                        self.move_only,
                        self.delay,
                    );
                    let follow = FollowUp {
                        steps,
                        next: 0,
                        threshold: self.threshold,
                        screen: Ghost(screen@),
                        needle: Ghost(needle@),
                    };
                    Verdict { screenshot: None, next: Next::Act(follow) }
                } else {
                    let screenshot = if self.enable_screenshot {
                        Some(self.tag_attempt("-success"))
                    } else {
                        None
                    };
                    Verdict { screenshot, next: Next::Retry(RETRY_MS) }
                }
            },
        }
    }
}

/// A screenshot is recorded under `tag` if screenshots are enabled, and not
/// at all if they are not.
pub open spec fn recorded(screenshot: Option<String>, enabled: bool, tag: Seq<char>) -> bool {
    if enabled {
        screenshot matches Some(name) && name@ == tag
    } else {
        screenshot is None
    }
}

} // verus!
