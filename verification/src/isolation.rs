//! Many sessions over one storage directory.
//!
//! Sessions run side by side, and their events arrive in any order. The
//! directory is a map from file names to contents; a session's appends go to
//! the file named by its slug.

use vstd::prelude::*;
use crate::history::{lemma_stored_cons, stored};
use crate::session::{ActionView, EventView, SessionView};

verus! {

/// One event on its way to one of the sessions.
pub struct Delivery {
    /// The index of the session that the event is for.
    pub session: int,
    pub event: EventView,
}

/// The files after the session whose paste is named `name` has had `action`
/// carried out.
pub open spec fn carry_out(
    files: Map<Seq<char>, Seq<u8>>,
    name: Seq<char>,
    action: ActionView,
) -> Map<Seq<char>, Seq<u8>> {
    match action {
        ActionView::Append { bytes } => files.insert(name, files[name] + bytes),
        _ => files,
    }
}

/// The events of `schedule` that are for session `k`, in order.
pub open spec fn told(schedule: Seq<Delivery>, k: int) -> Seq<EventView>
    decreases schedule.len(),
{
    if schedule.len() == 0 {
        Seq::empty()
    } else {
        let rest = told(schedule.drop_first(), k);
        if schedule[0].session == k {
            seq![schedule[0].event] + rest
        } else {
            rest
        }
    }
}

/// The sessions that are open, and the files of the storage directory.
pub struct System {
    pub sessions: Seq<SessionView>,
    pub files: Map<Seq<char>, Seq<u8>>,
}

impl System {
    /// The system as it starts: the sessions as they were accepted, and for
    /// each of them a file that was just created, or cut back to nothing,
    /// under its slug.
    pub open spec fn opened(sessions: Seq<SessionView>) -> System {
        System {
            sessions,
            files: Map::new(
                |name: Seq<char>|
                    exists|k: int| 0 <= k < sessions.len() && (#[trigger] sessions[k]).slug == name,
                |name: Seq<char>| Seq::<u8>::empty(),
            ),
        }
    }

    /// No two sessions share a slug.
    pub open spec fn no_collision(self) -> bool {
        forall|i: int, j: int|
            0 <= i < j < self.sessions.len() ==> (#[trigger] self.sessions[i]).slug
                != (#[trigger] self.sessions[j]).slug
    }

    /// The system after one delivery: the session takes the event in, and
    /// the action that it asks for is carried out on its own file. An event
    /// for no session, or one that its session refuses, changes nothing.
    pub open spec fn deliver(self, d: Delivery) -> System {
        if 0 <= d.session < self.sessions.len() && self.sessions[d.session].accepts(d.event) {
            let s = self.sessions[d.session];
            System {
                sessions: self.sessions.update(d.session, s.next(d.event)),
                files: carry_out(self.files, s.slug, s.action(d.event)),
            }
        } else {
            self
        }
    }

    /// The system after the deliveries of `schedule`, in order.
    pub open spec fn run(self, schedule: Seq<Delivery>) -> System
        decreases schedule.len(),
    {
        if schedule.len() == 0 {
            self
        } else {
            self.deliver(schedule[0]).run(schedule.drop_first())
        }
    }
}

/// Sessions do not disturb one another. However the events of the sessions
/// are interleaved, as long as no two sessions share a slug, each session
/// ends as if it had run alone on its own events, and its file, once it is
/// there, has grown by what that session alone stored: no byte of another
/// session reaches it, and none of its own is lost or moved.
pub proof fn law_sessions_do_not_interfere(system: System, schedule: Seq<Delivery>, k: int)
    requires
        system.no_collision(),
        0 <= k < system.sessions.len(),
        system.files.dom().contains(system.sessions[k].slug),
    ensures
        ({
            let own = told(schedule, k);
            let s = system.sessions[k];
            let end = system.run(schedule);
            &&& end.sessions.len() == system.sessions.len()
            &&& end.no_collision()
            &&& end.sessions[k] == s.run(own)
            &&& end.files.dom().contains(s.slug)
            &&& end.files[s.slug] == system.files[s.slug] + stored(s.actions(own))
        }),
    decreases schedule.len(),
{
    if schedule.len() > 0 {
        let s = system.sessions[k];
        let d = schedule[0];
        let rest = schedule.drop_first();
        let mid = system.deliver(d);
        assert forall|i: int| 0 <= i < mid.sessions.len() implies (#[trigger] mid.sessions[i]).slug
            == system.sessions[i].slug by {}
        assert(mid.no_collision());
        law_sessions_do_not_interfere(mid, rest, k);
        if d.session == k {
            let own = seq![d.event] + told(rest, k);
            assert(own.drop_first() =~= told(rest, k));
            if s.accepts(d.event) {
                lemma_stored_cons(s.action(d.event), s.next(d.event).actions(told(rest, k)));
                assert(system.run(schedule).files[s.slug] =~= system.files[s.slug] + stored(
                    s.actions(own),
                ));
            }
        }
    }
}

/// A session writes to no file but its own: a file whose name is the slug of
/// no session is there after the deliveries exactly if it was there before,
/// and holds what it held.
pub proof fn law_other_files_are_untouched(
    system: System,
    schedule: Seq<Delivery>,
    name: Seq<char>,
)
    requires
        forall|k: int| 0 <= k < system.sessions.len() ==> (#[trigger] system.sessions[k]).slug != name,
    ensures
        system.run(schedule).files.dom().contains(name) == system.files.dom().contains(name),
        system.run(schedule).files[name] == system.files[name],
    decreases schedule.len(),
{
    if schedule.len() > 0 {
        let mid = system.deliver(schedule[0]);
        assert forall|k: int| 0 <= k < mid.sessions.len() implies (#[trigger] mid.sessions[k]).slug
            != name by {}
        law_other_files_are_untouched(mid, schedule.drop_first(), name);
    }
}

/// With a slug for each session alone, every paste is the work of its own
/// session: from new files on, whatever the order in which the events of the
/// sessions arrive, the file under a session's slug holds what that session
/// alone stored, which is what its own client sent while it was reading.
pub proof fn law_each_file_holds_its_own_paste(
    sessions: Seq<SessionView>,
    schedule: Seq<Delivery>,
    k: int,
)
    requires
        System::opened(sessions).no_collision(),
        0 <= k < sessions.len(),
    ensures
        System::opened(sessions).run(schedule).files.dom().contains(sessions[k].slug),
        System::opened(sessions).run(schedule).files[sessions[k].slug] == stored(
            sessions[k].actions(told(schedule, k)),
        ),
        System::opened(sessions).run(schedule).sessions[k] == sessions[k].run(told(schedule, k)),
{
    let system = System::opened(sessions);
    law_sessions_do_not_interfere(system, schedule, k);
    assert(system.files[sessions[k].slug] + stored(sessions[k].actions(told(schedule, k)))
        =~= stored(sessions[k].actions(told(schedule, k))));
}

} // verus!
