//! What a session keeps between tool calls: the todo list, and the plan that
//! waits for the user's answer.
//!
//! Each plan gets an answer channel. The session keeps the channel's sending side
//! while the plan can be answered, and its receiving side until a waiter takes it;
//! an answer, once given, is kept for that channel until its receiver reads it.
//! Dropping a channel whose receiver a waiter holds answers it with a rejection
//! ("Channel closed"); dropping one whose receiver is still here forgets it.
use vstd::prelude::*;

use super::calls::{channel_closed, PlanApproval};
use super::types::TodoItem;
use crate::text::copy_string;

verus! {

broadcast use vstd::string::group_string_axioms;

/// An answer to a plan, by value.
pub enum Answer {
    Approved,
    Rejected(Option<Seq<char>>),
}

/// The value of an answer.
pub open spec fn answer_of(a: PlanApproval) -> Answer {
    match a {
        PlanApproval::Approved => Answer::Approved,
        PlanApproval::Rejected(Some(r)) => Answer::Rejected(Some(r@)),
        PlanApproval::Rejected(None) => Answer::Rejected(None),
    }
}

/// The answers that a list of (channel, answer) entries holds, a later entry for a
/// channel replacing an earlier one.
pub open spec fn answers_of(s: Seq<(u64, PlanApproval)>) -> Map<u64, Answer>
    decreases s.len(),
{
    if s.len() == 0 {
        Map::empty()
    } else {
        answers_of(s.drop_last()).insert(s.last().0, answer_of(s.last().1))
    }
}

/// The answers after the latest channel is dropped: forgotten when its receiver
/// is still in the session, a rejection when a waiter holds the receiver and the
/// plan had not been answered.
pub open spec fn after_drop(
    answers: Map<u64, Answer>,
    channel: u64,
    sender: bool,
    receiver: bool,
) -> Map<u64, Answer> {
    if receiver {
        answers.remove(channel)
    } else if sender {
        answers.insert(channel, Answer::Rejected(Some("Channel closed"@)))
    } else {
        answers
    }
}

/// The waiting side of a plan's answer channel.
#[derive(Debug)]
pub struct PlanReceiver {
    channel: u64,
}

impl PlanReceiver {
    /// The channel this receiver belongs to.
    pub closed spec fn channel_of(&self) -> u64 {
        self.channel
    }
}

/// The value of a session: its todos, its plan, the number of the latest plan's
/// channel (0 before any plan), whether that plan can still be answered, whether
/// its receiver is still in the session, and the answers given and not yet read.
pub struct SessionView {
    pub todos: Seq<TodoItem>,
    pub plan: Option<Seq<char>>,
    pub channel: u64,
    pub sender: bool,
    pub receiver: bool,
    pub answers: Map<u64, Answer>,
}

/// A session with no todos and no plan.
pub open spec fn empty_session() -> SessionView {
    SessionView {
        todos: Seq::empty(),
        plan: None,
        channel: 0,
        sender: false,
        receiver: false,
        answers: Map::empty(),
    }
}

/// The latest plan's channel dropped: see [`after_drop`].
pub open spec fn dropped(s: SessionView) -> SessionView {
    SessionView {
        sender: false,
        receiver: false,
        answers: after_drop(s.answers, s.channel, s.sender, s.receiver),
        ..s
    }
}

/// A plan submitted: the earlier channel is dropped and the plan gets a new one.
pub open spec fn plan_set(s: SessionView, plan: Seq<char>) -> SessionView {
    SessionView {
        plan: Some(plan),
        channel: (s.channel + 1) as u64,
        sender: true,
        receiver: true,
        ..dropped(s)
    }
}

/// The plan forgotten and its channel dropped.
pub open spec fn plan_cleared(s: SessionView) -> SessionView {
    SessionView { plan: None, ..dropped(s) }
}

/// A waiter takes the latest plan's receiver, if it is still there: the session
/// after, and the channel waited on.
pub open spec fn wait_started(s: SessionView) -> (SessionView, Option<u64>) {
    if s.receiver {
        (SessionView { receiver: false, ..s }, Some(s.channel))
    } else {
        (s, None)
    }
}

/// The latest plan answered, if it can still be: the session after, and whether
/// it could.
pub open spec fn answered(s: SessionView, a: Answer) -> (SessionView, bool) {
    if s.sender {
        (SessionView { plan: None, sender: false, answers: s.answers.insert(s.channel, a), ..s }, true)
    } else {
        (s, false)
    }
}

/// The answer on a channel read: the session after, and the answer, if one was
/// given.
pub open spec fn received(s: SessionView, channel: u64) -> (SessionView, Option<Answer>) {
    (
        SessionView { answers: s.answers.remove(channel), ..s },
        if s.answers.contains_key(channel) {
            Some(s.answers[channel])
        } else {
            None
        },
    )
}

/// Whether a plan waits for an answer.
pub open spec fn pending(s: SessionView) -> bool {
    s.plan is Some && s.sender
}

/// The todo list and the plan of a session.
#[derive(Debug)]
pub struct SessionState {
    todos: Vec<TodoItem>,
    plan: Option<String>,
    channel: u64,
    sender: bool,
    receiver: bool,
    answers: Vec<(u64, PlanApproval)>,
}

impl View for SessionState {
    type V = SessionView;

    closed spec fn view(&self) -> SessionView {
        SessionView {
            todos: self.todos@,
            plan: match self.plan {
                Some(p) => Some(p@),
                None => None,
            },
            channel: self.channel,
            sender: self.sender,
            receiver: self.receiver,
            answers: answers_of(self.answers@),
        }
    }
}

impl SessionState {
    /// A session with no todos and no plan.
    pub fn new() -> (r: Self)
        ensures
            r@ == empty_session(),
    {
        let r = SessionState {
            todos: Vec::new(),
            plan: None,
            channel: 0,
            sender: false,
            receiver: false,
            answers: Vec::new(),
        };
        assert(r@.todos =~= Seq::<TodoItem>::empty());
        assert(r@.answers =~= Map::<u64, Answer>::empty());
        r
    }

    /// The todo list.
    pub fn get_todos(&self) -> (r: &Vec<TodoItem>)
        ensures
            r@ == self@.todos,
    {
        &self.todos
    }

    /// Replaces the todo list.
    pub fn set_todos(&mut self, todos: Vec<TodoItem>)
        ensures
            final(self)@ == (SessionView { todos: todos@, ..old(self)@ }),
    {
        self.todos = todos;
    }

    /// How many todos there are.
    pub fn todos_count(&self) -> (r: usize)
        ensures
            r == self@.todos.len(),
    {
        self.todos.len()
    }

    /// Removes the answers kept for `channel`, and gives the one that counted.
    fn take_answer(&mut self, channel: u64) -> (r: Option<PlanApproval>)
        ensures
            final(self)@ == received(old(self)@, channel).0,
            match r {
                Some(a) => received(old(self)@, channel).1 == Some(answer_of(a)),
                None => received(old(self)@, channel).1 is None,
            },
    {
        let ghost all = self.answers@;
        let mut rest: Vec<(u64, PlanApproval)> = Vec::new();
        std::mem::swap(&mut rest, &mut self.answers);
        let mut found: Option<PlanApproval> = None;
        assert(all.take(0) =~= Seq::<(u64, PlanApproval)>::empty());
        while rest.len() > 0
            invariant
                self.todos@ == old(self).todos@,
                self.plan == old(self).plan,
                self.channel == old(self).channel,
                self.sender == old(self).sender,
                self.receiver == old(self).receiver,
                all == old(self).answers@,
                rest@.len() <= all.len(),
                rest@ == all.skip(all.len() - rest@.len()),
                answers_of(self.answers@) == answers_of(all.take(all.len() - rest@.len())).remove(
                    channel,
                ),
                match found {
                    Some(a) => answers_of(all.take(all.len() - rest@.len())).contains_key(channel)
                        && answers_of(all.take(all.len() - rest@.len()))[channel] == answer_of(a),
                    None => !answers_of(all.take(all.len() - rest@.len())).contains_key(channel),
                },
            decreases rest@.len(),
        {
            let ghost k = all.len() - rest@.len();
            let ghost before = answers_of(all.take(k));
            let e = rest.remove(0);
            proof {
                assert(e == all[k]);
                assert(all.take(k + 1).drop_last() =~= all.take(k));
                assert(all.take(k + 1).last() == all[k]);
                assert(rest@ =~= all.skip(k + 1));
            }
            let ghost kept = answers_of(self.answers@);
            if e.0 == channel {
                found = Some(e.1);
                proof {
                    assert(answers_of(all.take(k + 1)).remove(channel) =~= before.remove(channel));
                }
            } else {
                let ghost kept_seq = self.answers@;
                self.answers.push(e);
                proof {
                    assert(self.answers@.drop_last() =~= kept_seq);
                    assert(answers_of(self.answers@) =~= kept.insert(e.0, answer_of(e.1)));
                    assert(answers_of(all.take(k + 1)).remove(channel) =~= before.remove(
                        channel,
                    ).insert(e.0, answer_of(e.1)));
                }
            }
        }
        assert(all.take(all.len() as int) =~= all);
        assert(self@.answers =~= received(old(self)@, channel).0.answers);
        found
    }

    /// Drops the latest channel.
    fn drop_channel(&mut self)
        ensures
            final(self)@ == dropped(old(self)@),
    {
        if self.receiver {
            let _ = self.take_answer(self.channel);
        } else if self.sender {
            self.answers.push((self.channel, channel_closed()));
            proof {
                assert(self.answers@.drop_last() =~= old(self).answers@);
            }
        }
        self.sender = false;
        self.receiver = false;
        assert(self@.answers =~= dropped(old(self)@).answers);
    }

    /// Submits a plan: it replaces any earlier one, whose channel is dropped, and
    /// gets a new channel.
    pub fn set_plan(&mut self, plan: String)
        requires
            old(self)@.channel < u64::MAX,
        ensures
            final(self)@ == plan_set(old(self)@, plan@),
    {
        self.drop_channel();
        self.channel = self.channel + 1;
        self.sender = true;
        self.receiver = true;
        self.plan = Some(plan);
    }

    /// The plan waiting for an answer, if any.
    pub fn get_plan(&self) -> (r: Option<String>)
        ensures
            match r {
                Some(p) => self@.plan == Some(p@),
                None => self@.plan is None,
            },
    {
        match &self.plan {
            Some(p) => Some(copy_string(p.as_str())),
            None => None,
        }
    }

    /// Forgets the plan and drops its channel.
    pub fn clear_plan(&mut self)
        ensures
            final(self)@ == plan_cleared(old(self)@),
    {
        self.drop_channel();
        self.plan = None;
    }

    /// Starts waiting for the answer to the latest plan: takes its receiver, or
    /// gives `None` when there is none to take (no plan, or a waiter already took
    /// it). The answer is then read with [`SessionState::receive_answer`].
    pub fn wait_for_plan_approval(&mut self) -> (r: Option<PlanReceiver>)
        ensures
            final(self)@ == wait_started(old(self)@).0,
            match r {
                Some(rx) => wait_started(old(self)@).1 == Some(rx.channel_of()),
                None => wait_started(old(self)@).1 is None,
            },
    {
        if self.receiver {
            self.receiver = false;
            Some(PlanReceiver { channel: self.channel })
        } else {
            None
        }
    }

    /// Reads the answer on a receiver's channel: the answer, which is then no
    /// longer kept, or the receiver back while its plan is still unanswered.
    pub fn receive_answer(&mut self, rx: PlanReceiver) -> (r: Result<PlanApproval, PlanReceiver>)
        ensures
            final(self)@ == received(old(self)@, rx.channel_of()).0,
            match r {
                Ok(a) => received(old(self)@, rx.channel_of()).1 == Some(answer_of(a)),
                Err(back) => received(old(self)@, rx.channel_of()).1 is None && back.channel_of()
                    == rx.channel_of(),
            },
    {
        match self.take_answer(rx.channel) {
            Some(a) => Ok(a),
            None => Err(rx),
        }
    }

    /// Answers the latest plan with `answer`, if it can still be answered.
    fn answer(&mut self, answer: PlanApproval) -> (r: bool)
        ensures
            (final(self)@, r) == answered(old(self)@, answer_of(answer)),
    {
        if self.sender {
            self.sender = false;
            self.plan = None;
            self.answers.push((self.channel, answer));
            proof {
                assert(self.answers@.drop_last() =~= old(self).answers@);
            }
            true
        } else {
            false
        }
    }

    /// Approves the latest plan, if it can still be answered; says whether it could.
    pub fn approve_plan(&mut self) -> (r: bool)
        ensures
            (final(self)@, r) == answered(old(self)@, Answer::Approved),
    {
        self.answer(PlanApproval::Approved)
    }

    /// Rejects the latest plan, with an optional reason, if it can still be
    /// answered; says whether it could.
    pub fn reject_plan(&mut self, reason: Option<String>) -> (r: bool)
        ensures
            (final(self)@, r) == answered(
                old(self)@,
                Answer::Rejected(
                    match reason {
                        Some(t) => Some(t@),
                        None => None,
                    },
                ),
            ),
    {
        self.answer(PlanApproval::Rejected(reason))
    }

    /// Whether a plan waits for an answer.
    pub fn has_pending_plan(&self) -> (r: bool)
        ensures
            r == pending(self@),
    {
        self.plan.is_some() && self.sender
    }
}

impl Default for SessionState {
    fn default() -> (r: Self)
        ensures
            r@ == empty_session(),
    {
        Self::new()
    }
}

/// A submitted plan waits for an answer, and its waiter finds the receiver.
pub proof fn law_set_plan_pending(s: SessionView, plan: Seq<char>)
    requires
        s.channel < u64::MAX,
    ensures
        pending(plan_set(s, plan)),
        plan_set(s, plan).plan == Some(plan),
        wait_started(plan_set(s, plan)).1 == Some(plan_set(s, plan).channel),
{
}

/// The answer given to a plan is what its waiter reads, whether the waiter took
/// the receiver before the answer was given or after.
pub proof fn law_answer_reaches_waiter(s: SessionView, plan: Seq<char>, a: Answer)
    requires
        s.channel < u64::MAX,
    ensures
        ({
            let s1 = plan_set(s, plan);
            let (s2, ch) = wait_started(s1);
            let (s3, ok) = answered(s2, a);
            ok && ch == Some(s1.channel) && received(s3, s1.channel).1 == Some(a)
        }),
        ({
            let s1 = plan_set(s, plan);
            let (s2, ok) = answered(s1, a);
            let (s3, ch) = wait_started(s2);
            ok && ch == Some(s1.channel) && received(s3, s1.channel).1 == Some(a)
        }),
{
}

/// A plan is answered once: a second answer is refused and changes nothing, and
/// the plan no longer waits.
pub proof fn law_one_answer_per_plan(s: SessionView, a: Answer, b: Answer)
    requires
        answered(s, a).1,
    ensures
        !pending(answered(s, a).0),
        !answered(answered(s, a).0, b).1,
        answered(answered(s, a).0, b).0 == answered(s, a).0,
{
}

/// An answer is read once: reading the channel again finds nothing.
pub proof fn law_answer_read_once(s: SessionView, channel: u64)
    ensures
        received(received(s, channel).0, channel).1 is None,
{
}

/// A plan replaced or cleared while a waiter holds its receiver, before any
/// answer, is answered for that waiter with the rejection "Channel closed"; a
/// replacing plan gets a channel of its own.
pub proof fn law_dropped_plan_closes_waiter(s: SessionView, plan: Seq<char>, next: Seq<char>)
    requires
        s.channel < u64::MAX - 1,
    ensures
        ({
            let s1 = plan_set(s, plan);
            let (s2, _) = wait_started(s1);
            let s3 = plan_set(s2, next);
            &&& received(s3, s1.channel).1 == Some(Answer::Rejected(Some("Channel closed"@)))
            &&& s3.channel != s1.channel
            &&& pending(s3)
        }),
        ({
            let s1 = plan_set(s, plan);
            let (s2, _) = wait_started(s1);
            received(plan_cleared(s2), s1.channel).1 == Some(
                Answer::Rejected(Some("Channel closed"@)),
            )
        }),
{
}

} // verus!
