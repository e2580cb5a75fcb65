//! The two queries, as a backend offers them.
//!
//! A backend answers a query against a [`WindowSystem`], which performs the
//! requests of the query one by one. The backend decides what is asked and
//! what the replies mean; the window system only carries the requests out.
//! However the window system answers, a query ends after a bounded number of
//! requests and returns records of this backend. Which records they are
//! follows from the replies, as the tasks that the queries run say step by
//! step: see [`crate::active_window`] and [`crate::open_windows`].

use vstd::prelude::*;
use crate::active_window::ActiveWindowTask;
use crate::open_windows::{
    is_answer_to, lemma_fed_one_more, views, OpenWindowsTask, OpenWindowsTaskView,
};
use crate::protocol::{Reply, ReplyView, Request};
use crate::resolver::is_record;
use crate::window::WindowInfo;

verus! {

/// What performs the requests of a query: a connection to a display server
/// together with the process table of the machine.
pub trait WindowSystem {
    /// Performs `request` and returns the reply to it; `Reply::Failed` if the
    /// request fails or its answer does not arrive.
    fn perform(&mut self, request: Request) -> Reply;
}

/// The queries that every backend answers.
pub trait API {
    /// The window that has the focus; the sentinel if there is none or it
    /// cannot be found out.
    fn get_active_window<S: WindowSystem>(&self, system: &mut S) -> (record: WindowInfo)
        ensures
            is_record(record@),
    ;

    /// The application windows that are open, in stacking order; none if
    /// they cannot be found out.
    ///
    /// The records are the answer of the query to the replies that the
    /// window system gave: the query is run as a task from its start to its
    /// end, each request of the task is handed to the window system, and the
    /// reply is handed to the task. What the window system replies is its
    /// own affair, so the contract speaks of the replies as of some replies.
    fn get_open_windows<S: WindowSystem>(&self, system: &mut S) -> (records: Vec<WindowInfo>)
        ensures
            exists|replies: Seq<ReplyView>| #[trigger] is_answer_to(views(records@), replies),
            forall|i: int|
                0 <= i < records.len() ==> (#[trigger] records[i])@.id != 0 && is_record(
                    records[i]@,
                ),
    ;
}

/// The backend for an X11 display server.
#[derive(Clone, Copy, Debug)]
pub struct X11Api {}

impl API for X11Api {
    fn get_active_window<S: WindowSystem>(&self, system: &mut S) -> (record: WindowInfo) {
        let mut task = ActiveWindowTask::new();
        proof {
            crate::active_window::lemma_task_starts_sound();
        }
        loop
            invariant
                task@.sound(),
            ensures
                task@.sound(),
                task@.result() is Some,
            decreases task@.remaining(),
        {
            match task.request() {
                Some(request) => {
                    let reply = system.perform(request);
                    proof {
                        crate::active_window::lemma_task_advances(task@, reply@);
                    }
                    task.advance(reply);
                },
                None => {
                    break ;
                },
            }
        }
        proof {
            crate::active_window::lemma_answer_is_a_record(task@);
        }
        match task.into_result() {
            Some(record) => record,
            None => WindowInfo::sentinel(),
        }
    }

    fn get_open_windows<S: WindowSystem>(&self, system: &mut S) -> (records: Vec<WindowInfo>) {
        let mut task = OpenWindowsTask::new();
        let ghost start = OpenWindowsTaskView::initial();
        let ghost mut replies: Seq<ReplyView> = Seq::empty();
        proof {
            crate::open_windows::lemma_task_starts_sound();
        }
        loop
            invariant
                start == OpenWindowsTaskView::initial(),
                task@.sound(),
                task@ == start.fed(replies),
                replies.len() <= task@.spent(),
                forall|count: int|
                    0 <= count < replies.len() ==> (#[trigger] start.fed(
                        replies.take(count),
                    )).request() is Some,
            ensures
                task@.sound(),
                task@.result() is Some,
                task@ == start.fed(replies),
                replies.len() <= task@.spent(),
                forall|count: int|
                    0 <= count < replies.len() ==> (#[trigger] start.fed(
                        replies.take(count),
                    )).request() is Some,
            decreases task@.opening(), task@.remaining(),
        {
            match task.request() {
                Some(request) => {
                    let reply = system.perform(request);
                    proof {
                        crate::open_windows::lemma_task_advances(task@, reply@);
                        lemma_fed_one_more(start, replies, reply@);
                        replies = replies.push(reply@);
                    }
                    task.advance(reply);
                },
                None => {
                    break ;
                },
            }
        }
        proof {
            crate::open_windows::lemma_answer_holds_records(task@);
        }
        match task.into_result() {
            Some(records) => {
                assert forall|i: int| 0 <= i < records.len() implies (#[trigger] records[i])@.id
                    != 0 && is_record(records[i]@) by {
                    assert(views(records@)[i] == records[i]@);
                }
                assert(is_answer_to(views(records@), replies));
                records
            },
            None => Vec::new(),
        }
    }
}

/// The backend of this platform. It answers through the X11 backend.
#[derive(Clone, Copy, Debug)]
pub struct LinuxAPI {}

impl API for LinuxAPI {
    fn get_active_window<S: WindowSystem>(&self, system: &mut S) -> (record: WindowInfo) {
        let backend = X11Api {  };
        backend.get_active_window(system)
    }

    fn get_open_windows<S: WindowSystem>(&self, system: &mut S) -> (records: Vec<WindowInfo>) {
        let backend = X11Api {  };
        backend.get_open_windows(system)
    }
}

/// The backend of this platform.
pub fn init_platform_api() -> (backend: LinuxAPI)
    ensures
        backend == (LinuxAPI {  }),
{
    LinuxAPI {  }
}

} // verus!
