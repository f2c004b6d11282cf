//! What holds of every import.
use vstd::prelude::*;
use crate::import::{
    actions, after, check_from, fresh, importer_args, importer_program, runs, step, takes,
    well_formed, ActionModel, Event, ImportFailure, ImportState, Stage,
};
use crate::paths::{assets_dir_spec, destination_spec, file_name_of};
use crate::text::{decimal, digit_char, import_message_spec};

verus! {

/// An import of no paths creates the assets directory, runs the importer
/// tool, and reports `Imported 0 file(s)`.
pub proof fn empty_import_reports_zero(project_dir: Seq<char>)
    ensures
        ({
            let events = seq![
                Event::Start,
                Event::DirCreated(Ok(())),
                Event::Launched(Ok(())),
            ];
            &&& runs(fresh(Seq::empty(), project_dir), events)
            &&& actions(fresh(Seq::empty(), project_dir), events) == seq![
                ActionModel::CreateDir(assets_dir_spec(project_dir)),
                ActionModel::RunImporter(
                    importer_program(),
                    importer_args(project_dir),
                    project_dir,
                ),
                ActionModel::Finish(Ok("Imported 0 file(s)"@)),
            ]
        }),
{
    let events = seq![Event::Start, Event::DirCreated(Ok(())), Event::Launched(Ok(()))];
    let e1 = events.drop_first();
    let e2 = e1.drop_first();
    let e3 = e2.drop_first();
    assert(e1 =~= seq![Event::DirCreated(Ok(())), Event::Launched(Ok(()))]);
    assert(e2 =~= seq![Event::Launched(Ok(()))]);
    assert(e3 =~= Seq::<Event>::empty());
    let s0 = fresh(Seq::empty(), project_dir);
    let s1 = after(s0, events[0]);
    let s2 = after(s1, e1[0]);
    let s3 = after(s2, e2[0]);
    reveal_strlit("Imported ");
    reveal_strlit(" file(s)");
    reveal_strlit("Imported 0 file(s)");
    assert(decimal(0) =~= seq![digit_char(0)]);
    assert(import_message_spec(0) =~= "Imported 0 file(s)"@);
    assert(runs(s3, e3));
    assert(runs(s2, e2));
    assert(runs(s1, e1));
    assert(actions(s3, e3) == Seq::<ActionModel>::empty());
    assert(actions(s2, e2) =~= seq![ActionModel::Finish(Ok("Imported 0 file(s)"@))]);
    assert(actions(s1, e1) =~= seq![
        ActionModel::RunImporter(importer_program(), importer_args(project_dir), project_dir),
        ActionModel::Finish(Ok("Imported 0 file(s)"@)),
    ]);
    assert(actions(s0, events) =~= seq![
        ActionModel::CreateDir(assets_dir_spec(project_dir)),
        ActionModel::RunImporter(importer_program(), importer_args(project_dir), project_dir),
        ActionModel::Finish(Ok("Imported 0 file(s)"@)),
    ]);
}

/// A path that is a regular file is copied into the assets directory, under
/// its own file name, or `asset` where it has none.
pub proof fn every_file_is_copied_to_assets(st: ImportState, i: usize)
    requires
        well_formed(st),
        st.stage == Stage::Checking(i),
    ensures
        step(st, Event::Checked(true)) == (
            Stage::Copying(i),
            ActionModel::CopyFile(
                st.paths[i as int],
                destination_spec(assets_dir_spec(st.project_dir), file_name_of(st.paths[i as int])),
            ),
        ),
{
}

/// A path that is not a regular file is passed over: the import goes on to
/// the next path, or to the importer tool after the last one.
pub proof fn other_entries_are_skipped(st: ImportState, i: usize)
    requires
        well_formed(st),
        st.stage == Stage::Checking(i),
    ensures
        step(st, Event::Checked(false)) == check_from(st, i as nat + 1),
        step(st, Event::Checked(false)).1 is CheckFile || step(st, Event::Checked(false)).1 is RunImporter,
{
}

/// Every success that an import reports counts all of its paths, those that
/// were skipped included.
pub proof fn reported_count_is_input_length(st: ImportState, events: Seq<Event>, k: int)
    requires
        runs(st, events),
        0 <= k < actions(st, events).len(),
        actions(st, events)[k] is Finish,
        actions(st, events)[k]->Finish_0 is Ok,
    ensures
        actions(st, events)[k]->Finish_0->Ok_0 == import_message_spec(st.paths.len()),
    decreases events.len(),
{
    let rest = actions(after(st, events[0]), events.drop_first());
    assert(actions(st, events) == seq![step(st, events[0]).1] + rest);
    if k > 0 {
        assert(actions(st, events)[k] == rest[k - 1]);
        reported_count_is_input_length(after(st, events[0]), events.drop_first(), k - 1);
    }
}

/// When the assets directory cannot be created, the import ends there with a
/// directory failure: no file is checked or copied and nothing else is taken.
pub proof fn directory_failure_copies_nothing(
    paths: Seq<Seq<char>>,
    project_dir: Seq<char>,
    m: String,
    rest: Seq<Event>,
)
    requires
        runs(fresh(paths, project_dir), seq![Event::Start, Event::DirCreated(Err(m))] + rest),
    ensures
        rest.len() == 0,
        actions(fresh(paths, project_dir), seq![Event::Start, Event::DirCreated(Err(m))]) == seq![
            ActionModel::CreateDir(assets_dir_spec(project_dir)),
            ActionModel::Finish(Err(ImportFailure::Directory(m@))),
        ],
{
    let events = seq![Event::Start, Event::DirCreated(Err(m))] + rest;
    let s0 = fresh(paths, project_dir);
    let s1 = after(s0, events[0]);
    let s2 = after(s1, events[1]);
    assert(events.drop_first()[0] == events[1]);
    assert(events.drop_first().drop_first() =~= rest);
    assert(runs(s1, events.drop_first()));
    assert(runs(s2, rest));
    assert(s2.stage == Stage::Done);
    if rest.len() > 0 {
        assert(!takes(s2.stage, rest[0]));
    }
    let two = seq![Event::Start, Event::DirCreated(Err(m))];
    let last = seq![Event::DirCreated(Err(m))];
    assert(two.drop_first() =~= last);
    assert(last.drop_first() =~= Seq::<Event>::empty());
    let s1 = after(s0, two[0]);
    assert(actions(after(s1, last[0]), Seq::<Event>::empty()) == Seq::<ActionModel>::empty());
    assert(actions(s1, last) =~= seq![ActionModel::Finish(Err(ImportFailure::Directory(m@)))]);
    assert(actions(s0, two) =~= seq![
        ActionModel::CreateDir(assets_dir_spec(project_dir)),
        ActionModel::Finish(Err(ImportFailure::Directory(m@))),
    ]);
}

/// The importer tool runs only once every path has been handled, and a
/// failure to start it is reported as a launch failure and ends the import.
/// Nothing undoes the copies made before.
pub proof fn launch_failure_after_copies(st: ImportState, i: nat, m: String)
    requires
        well_formed(st),
    ensures
        check_from(st, i).0 == Stage::Launching ==> i >= st.paths.len(),
        st.stage == Stage::Launching ==> step(st, Event::Launched(Err(m))) == (
            Stage::Done,
            ActionModel::Finish(Err(ImportFailure::Launch(m@))),
        ),
{
}

/// The import at `st` takes no event once it is over.
pub proof fn done_takes_nothing(st: ImportState, e: Event)
    requires
        st.stage == Stage::Done,
    ensures
        !takes(st.stage, e),
{
}

} // verus!
