//! The window at run time: the window procedure, the message pump that
//! drains the queue once per frame, and the size of the window.

use crate::fault::{sanity_assert, spec_sanity_assert, Fault, FaultPolicy};
use crate::platform::{wm_destroy, wm_paint, wm_quit};
use vstd::prelude::*;

verus! {

/// The identifier of the message that ends the message loop.
pub open spec fn quit_message() -> u32 {
    0x0012
}

/// The identifier of the message that asks the window to repaint.
pub open spec fn paint_message() -> u32 {
    0x000F
}

/// The identifier of the message that tells the window it is being destroyed.
pub open spec fn destroy_message() -> u32 {
    0x0002
}

/// What the window procedure does itself for a message it handles.
#[derive(Clone, Copy, Debug, PartialEq, Eq, Structural)]
pub enum Effect {
    /// Mark the whole client area as painted, drawing nothing: all drawing
    /// goes through the GPU.
    ValidateWindow,
    /// Post the quit message with this exit code.
    PostQuit { exit_code: i32 },
}

/// The window procedure's answer to one message.
#[derive(Clone, Copy, Debug, PartialEq, Eq, Structural)]
pub enum WindowReply {
    /// The procedure handles the message: perform `effect`, then return `result`.
    Handled { effect: Effect, result: isize },
    /// The procedure leaves the message to the system's default handling.
    Default,
}

/// The window procedure as a function of the message identifier.
pub open spec fn spec_wndproc(message: u32) -> WindowReply {
    if message == paint_message() {
        WindowReply::Handled { effect: Effect::ValidateWindow, result: 0 }
    } else if message == destroy_message() {
        WindowReply::Handled { effect: Effect::PostQuit { exit_code: 0 }, result: 0 }
    } else {
        WindowReply::Default
    }
}

/// Decides how the window answers `message`: a paint request is acknowledged
/// without drawing, destruction posts the quit message, and both return 0;
/// every other message gets the system's default handling.
pub fn wndproc(message: u32) -> (reply: WindowReply)
    ensures
        reply == spec_wndproc(message),
{
    if message == wm_paint() {
        WindowReply::Handled { effect: Effect::ValidateWindow, result: 0 }
    } else if message == wm_destroy() {
        WindowReply::Handled { effect: Effect::PostQuit { exit_code: 0 }, result: 0 }
    } else {
        WindowReply::Default
    }
}

/// What the pump does after one non-blocking look at the queue.
#[derive(Clone, Copy, Debug, PartialEq, Eq, Structural)]
pub enum PumpStep {
    /// Translate the message, hand it to the window procedure, and poll again.
    Dispatch { message: u32 },
    /// Stop polling and report `keep_running` to the render loop.
    Finished { keep_running: bool },
}

/// The pump's decision as a function of what the poll returned.
pub open spec fn spec_pump_step(polled: Option<u32>) -> PumpStep {
    match polled {
        None => PumpStep::Finished { keep_running: true },
        Some(message) => if message == quit_message() {
            PumpStep::Finished { keep_running: false }
        } else {
            PumpStep::Dispatch { message }
        },
    }
}

/// Decides one step of the message pump from the result of a non-blocking
/// poll: an empty queue ends the pump and lets the program run on, the quit
/// message ends it and stops the program, any other message is dispatched.
pub fn pump_step(polled: Option<u32>) -> (step: PumpStep)
    ensures
        step == spec_pump_step(polled),
{
    match polled {
        None => PumpStep::Finished { keep_running: true },
        Some(message) => {
            if message == wm_quit() {
                PumpStep::Finished { keep_running: false }
            } else {
                PumpStep::Dispatch { message }
            }
        },
    }
}

/// What a [`MessageQueue`] holds.
pub struct QueueView {
    /// The messages still waiting, oldest first.
    pub pending: Seq<u32>,
    /// The messages already handed to the window procedure, in that order.
    pub delivered: Seq<u32>,
}

/// A thread's message queue as the pump sees it: messages are posted at the
/// back, polled from the front, and each dispatched message is recorded.
#[derive(Debug)]
pub struct MessageQueue {
    pending: Vec<u32>,
    delivered: Vec<u32>,
}

impl View for MessageQueue {
    type V = QueueView;

    closed spec fn view(&self) -> QueueView {
        QueueView { pending: self.pending@, delivered: self.delivered@ }
    }
}

impl MessageQueue {
    /// A queue with nothing waiting and nothing delivered.
    pub fn new() -> (queue: Self)
        ensures
            queue@.pending == Seq::<u32>::empty(),
            queue@.delivered == Seq::<u32>::empty(),
    {
        MessageQueue { pending: Vec::new(), delivered: Vec::new() }
    }

    /// Puts `message` at the back of the queue.
    pub fn post(&mut self, message: u32)
        ensures
            final(self)@.pending == old(self)@.pending.push(message),
            final(self)@.delivered == old(self)@.delivered,
    {
        self.pending.push(message);
    }

    /// Takes the oldest waiting message off the queue without blocking;
    /// `None` when nothing waits.
    pub fn poll(&mut self) -> (polled: Option<u32>)
        ensures
            final(self)@.delivered == old(self)@.delivered,
            match polled {
                None => old(self)@.pending.len() == 0 && final(self)@.pending == old(
                    self,
                )@.pending,
                Some(message) => old(self)@.pending.len() > 0 && message == old(
                    self,
                )@.pending[0] && final(self)@.pending == old(self)@.pending.drop_first(),
            },
    {
        if self.pending.len() == 0 {
            None
        } else {
            let message = self.pending.remove(0);
            assert(self.pending@ =~= old(self).pending@.drop_first());
            Some(message)
        }
    }

    /// The messages still waiting, oldest first.
    pub fn pending(&self) -> (messages: &Vec<u32>)
        ensures
            messages@ == self@.pending,
    {
        &self.pending
    }

    /// The messages handed to the window procedure so far, in that order.
    pub fn delivered(&self) -> (messages: &Vec<u32>)
        ensures
            messages@ == self@.delivered,
    {
        &self.delivered
    }
}

/// How many messages the pump dispatches from `pending`: all that stand
/// ahead of the first quit message.
pub open spec fn dispatched_count(pending: Seq<u32>) -> nat
    decreases pending.len(),
{
    if pending.len() == 0 || pending[0] == quit_message() {
        0
    } else {
        1 + dispatched_count(pending.drop_first())
    }
}

/// One run of the pump over a queue: the queue it leaves and whether the
/// program keeps running.
pub open spec fn spec_handle_message(queue: QueueView) -> (QueueView, bool) {
    let k = dispatched_count(queue.pending) as int;
    if k == queue.pending.len() {
        (
            QueueView {
                pending: Seq::<u32>::empty(),
                delivered: queue.delivered + queue.pending,
            },
            true,
        )
    } else {
        (
            QueueView {
                pending: queue.pending.subrange(k + 1, queue.pending.len() as int),
                delivered: queue.delivered + queue.pending.subrange(0, k),
            },
            false,
        )
    }
}

/// Drains the queue without blocking. Each message ahead of the first quit
/// message is dispatched in order. If a quit message is met it is consumed,
/// what follows it stays queued, and the result is `false`: the caller must
/// stop. Otherwise the queue ends up empty and the result is `true`.
pub fn handle_message(queue: &mut MessageQueue) -> (keep_running: bool)
    ensures
        (final(queue)@, keep_running) == spec_handle_message(old(queue)@),
        keep_running <==> !old(queue)@.pending.contains(quit_message()),
{
    let ghost start = queue@;
    let ghost mut handled: int = 0;
    loop
        invariant
            start == old(queue)@,
            0 <= handled <= start.pending.len(),
            queue@.pending == start.pending.subrange(handled, start.pending.len() as int),
            queue@.delivered == start.delivered + start.pending.subrange(0, handled),
            forall|j: int| 0 <= j < handled ==> start.pending[j] != quit_message(),
        decreases start.pending.len() - handled,
    {
        let polled = queue.poll();
        match pump_step(polled) {
            PumpStep::Finished { keep_running: verdict } => {
                proof {
                    lemma_first_quit(start.pending);
                    if verdict {
                        assert(start.pending.subrange(0, handled) =~= start.pending);
                        assert(queue@.pending =~= Seq::<u32>::empty());
                    } else {
                        assert(queue@.pending.len() + 1 == start.pending.len() - handled);
                        assert(start.pending[handled] == quit_message());
                        assert(queue@.pending =~= start.pending.subrange(
                            handled + 1,
                            start.pending.len() as int,
                        ));
                    }
                }
                return verdict;
            },
            PumpStep::Dispatch { message } => {
                queue.delivered.push(message);
                proof {
                    assert(message == start.pending[handled]);
                    assert(queue@.pending =~= start.pending.subrange(
                        handled + 1,
                        start.pending.len() as int,
                    ));
                    assert(queue@.delivered =~= start.delivered + start.pending.subrange(
                        0,
                        handled + 1,
                    ));
                    handled = handled + 1;
                }
            },
        }
    }
}

/// A pump that has let the program run on has left nothing in the queue and
/// has dispatched everything that waited; run again at once, it finds the
/// queue empty, dispatches nothing, and lets the program run on again.
pub proof fn lemma_draining_is_idempotent(queue: QueueView)
    requires
        spec_handle_message(queue).1,
    ensures
        spec_handle_message(queue).0.pending == Seq::<u32>::empty(),
        spec_handle_message(queue).0.delivered == queue.delivered + queue.pending,
        spec_handle_message(spec_handle_message(queue).0) == (spec_handle_message(queue).0, true),
{
    let drained = spec_handle_message(queue).0;
    assert(drained.delivered + drained.pending =~= drained.delivered);
}

/// The pump stops the program exactly when a quit message waits in the
/// queue, however many other messages wait with it. It then dispatches what
/// stood ahead of the first quit message and leaves what stood behind it.
pub proof fn lemma_pump_stops_on_quit(queue: QueueView)
    ensures
        spec_handle_message(queue).1 <==> !queue.pending.contains(quit_message()),
        !spec_handle_message(queue).1 ==> {
            let k = dispatched_count(queue.pending) as int;
            &&& 0 <= k < queue.pending.len()
            &&& queue.pending[k] == quit_message()
            &&& forall|j: int| 0 <= j < k ==> queue.pending[j] != quit_message()
        },
{
    lemma_first_quit(queue.pending);
}

/// `dispatched_count` stops at the first quit message: nothing before that
/// position is a quit message, and the position holds one unless the queue
/// ends there.
pub proof fn lemma_first_quit(pending: Seq<u32>)
    ensures
        dispatched_count(pending) <= pending.len(),
        forall|j: int| 0 <= j < dispatched_count(pending) ==> pending[j] != quit_message(),
        dispatched_count(pending) < pending.len() ==> pending[dispatched_count(pending) as int]
            == quit_message(),
        dispatched_count(pending) == pending.len() <==> !pending.contains(quit_message()),
    decreases pending.len(),
{
    if pending.len() > 0 && pending[0] != quit_message() {
        let rest = pending.drop_first();
        lemma_first_quit(rest);
        let k = dispatched_count(rest) as int;
        assert forall|j: int| 0 <= j < k + 1 implies pending[j] != quit_message() by {
            if j > 0 {
                assert(pending[j] == rest[j - 1]);
            }
        }
        if k < rest.len() {
            assert(pending[k + 1] == rest[k]);
        } else {
            assert forall|j: int| 0 <= j < pending.len() implies pending[j]
                != quit_message() by {
                if j > 0 {
                    assert(pending[j] == rest[j - 1]);
                }
            }
        }
    }
}

/// A rectangle in screen coordinates.
#[derive(Clone, Copy, Debug, PartialEq, Eq, Structural)]
pub struct Rect {
    pub left: i32,
    pub top: i32,
    pub right: i32,
    pub bottom: i32,
}

/// The difference of two coordinates as 32-bit arithmetic gives it: the
/// exact difference where that fits an `i32`, and the difference wrapped
/// around by 2^32 where it does not.
pub open spec fn wrapped_difference(a: i32, b: i32) -> i32 {
    if a - b > i32::MAX {
        (a - b - 0x1_0000_0000) as i32
    } else if a - b < i32::MIN {
        (a - b + 0x1_0000_0000) as i32
    } else {
        (a - b) as i32
    }
}

/// The size of a rectangle as a pair: right minus left, then top minus
/// bottom. The second is the height with its sign reversed wherever the
/// bottom lies below the top.
pub open spec fn spec_size(rect: Rect) -> (i32, i32) {
    (wrapped_difference(rect.right, rect.left), wrapped_difference(rect.top, rect.bottom))
}

/// The size of the window from what the platform reported: `status`, which
/// is 0 if the rectangle could not be read, and the rectangle. Under the
/// diagnostic policy a status of 0 is a fault; under the release policy the
/// status is not looked at.
pub fn size(policy: FaultPolicy, status: i32, rect: Rect) -> (extent: Result<(i32, i32), Fault>)
    ensures
        extent == match spec_sanity_assert(policy, status != 0, Fault::WindowRect) {
            Err(fault) => Err::<(i32, i32), Fault>(fault),
            Ok(_) => Ok(spec_size(rect)),
        },
{
    match sanity_assert(policy, status != 0, Fault::WindowRect) {
        Err(fault) => Err(fault),
        Ok(_) => Ok((rect.right.wrapping_sub(rect.left), rect.top.wrapping_sub(rect.bottom))),
    }
}

} // verus!
