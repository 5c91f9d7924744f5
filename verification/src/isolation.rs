//! Uploads that run side by side do not see each other's artifact.
//!
//! The uploads of a service share nothing but the directory that their
//! artifacts are written to. This module models that directory and any
//! number of uploads that take their steps in any order, each as
//! [`next`] decides, and proves that the file an upload has analysed is
//! always the one it wrote itself. Nothing is assumed of the names that are
//! drawn: two uploads may well draw the same one. What is assumed of the
//! directory is that a file is created only where none of that name exists.

use crate::artifact::command_text;
use crate::pipeline::{next, ActionText, EventText, StageText};
use vstd::prelude::*;

verus! {

/// The action that an upload in this stage waits to have performed.
pub open spec fn awaited(stage: StageText) -> ActionText {
    match stage {
        StageText::AwaitingPart { seen_part } => ActionText::NextPart,
        StageText::Storing { artifact } => ActionText::Store { name: artifact },
        StageText::Invoking { artifact } => ActionText::Run { command: command_text(artifact) },
        StageText::Releasing { artifact, outcome } => ActionText::Remove { name: artifact },
        StageText::Finished { outcome } => ActionText::Finish,
    }
}

/// The artifact that an upload in this stage has written and not yet
/// removed, if any.
pub open spec fn held(stage: StageText) -> Option<Seq<char>> {
    match stage {
        StageText::Invoking { artifact } => Some(artifact),
        StageText::Releasing { artifact, outcome } => Some(artifact),
        _ => None,
    }
}

/// One upload: where it stands, and the bytes of the part it has at hand.
pub ghost struct Upload {
    pub stage: StageText,
    pub data: Seq<u8>,
}

/// The uploads under way and the files of the directory they share, by name.
pub ghost struct World {
    pub files: Map<Seq<char>, Seq<u8>>,
    pub uploads: Seq<Upload>,
}

/// What performing the action that `upload` waits for can do to the
/// directory, and what is then reported.
///
/// Reading the next part gives a part with new bytes, or none. Storing
/// creates the file with the upload's bytes where no file of that name
/// exists, and leaves every other file as it is; where one exists, nothing is
/// written. A write that fails may leave a file of any content under the
/// name. Running the analyzer writes nothing. Removing takes the named file
/// away, or fails and leaves all as it is.
pub open spec fn performs(
    files: Map<Seq<char>, Seq<u8>>,
    upload: Upload,
    event: EventText,
    files_after: Map<Seq<char>, Seq<u8>>,
    data_after: Seq<u8>,
) -> bool {
    match awaited(upload.stage) {
        ActionText::NextPart => files_after == files && (event is Part || (event is NoMoreParts
            && data_after == upload.data)),
        ActionText::Store { name } => data_after == upload.data && match event {
            EventText::Stored => !files.contains_key(name) && files_after == files.insert(
                name,
                upload.data,
            ),
            EventText::WriteFailed => !files.contains_key(name) && exists|partial: Seq<u8>|
                files_after == #[trigger] files.insert(name, partial),
            EventText::NameTaken => files.contains_key(name) && files_after == files,
            EventText::CreateFailed => files_after == files,
            _ => false,
        },
        ActionText::Run { command } => data_after == upload.data && files_after == files && (
        event is Exited || event is SpawnFailed || event is TimedOut),
        ActionText::Remove { name } => data_after == upload.data && event is Released && (
        files_after == files.remove(name) || files_after == files),
        ActionText::Finish => false,
    }
}

/// One step of the world: a new upload arrives, or the action of one upload
/// is performed and the upload takes the step that [`next`] decides, with
/// whatever fresh name.
pub open spec fn world_step(before: World, after: World) -> bool {
    ||| after.files == before.files && after.uploads == before.uploads.push(
        Upload { stage: StageText::AwaitingPart { seen_part: false }, data: Seq::<u8>::empty() },
    )
    ||| exists|i: int, event: EventText, fresh: Seq<char>|
        #![trigger next(before.uploads[i].stage, event, fresh)]
        upload_step(before, after, i, event, fresh)
}

/// Upload `i` takes a step on `event`, with `fresh` as its fresh name.
pub open spec fn upload_step(
    before: World,
    after: World,
    i: int,
    event: EventText,
    fresh: Seq<char>,
) -> bool {
    &&& 0 <= i < before.uploads.len()
    &&& after.uploads.len() == before.uploads.len()
    &&& forall|j: int|
        0 <= j < before.uploads.len() && j != i ==> after.uploads[j] == before.uploads[j]
    &&& performs(before.files, before.uploads[i], event, after.files, after.uploads[i].data)
    &&& next(before.uploads[i].stage, event, fresh) == Some(
        (after.uploads[i].stage, awaited(after.uploads[i].stage)),
    )
}

/// Each upload that holds an artifact finds it in the directory, with its
/// own bytes in it while the analyzer runs, and no two uploads hold the same
/// one.
pub open spec fn isolated(world: World) -> bool {
    &&& forall|i: int|
        0 <= i < world.uploads.len() ==> (#[trigger] held(world.uploads[i].stage) matches Some(name)
            ==> world.files.contains_key(name))
    &&& forall|i: int|
        0 <= i < world.uploads.len() ==> (
        #[trigger] world.uploads[i].stage matches StageText::Invoking { artifact }
            ==> world.files[artifact] == world.uploads[i].data)
    &&& forall|i: int, j: int|
        0 <= i < world.uploads.len() && 0 <= j < world.uploads.len() && i != j ==> (#[trigger] held(
            world.uploads[i].stage,
        ) is Some ==> held(world.uploads[i].stage) != #[trigger] held(world.uploads[j].stage))
}

/// Every step is answered with the action that the stage it reaches waits
/// for.
pub proof fn lemma_action_is_awaited(
    stage: StageText,
    event: EventText,
    fresh: Seq<char>,
    after: StageText,
    action: ActionText,
)
    requires
        next(stage, event, fresh) == Some((after, action)),
    ensures
        action == awaited(after),
{
}

/// Before any upload has arrived the world is isolated, whatever files the
/// directory holds.
pub proof fn lemma_isolated_at_start(files: Map<Seq<char>, Seq<u8>>)
    ensures
        isolated(World { files, uploads: Seq::<Upload>::empty() }),
{
}

/// No step of the world breaks isolation.
pub proof fn lemma_step_keeps_isolated(before: World, after: World)
    requires
        isolated(before),
        world_step(before, after),
    ensures
        isolated(after),
{
    if after.files == before.files && after.uploads == before.uploads.push(
        Upload { stage: StageText::AwaitingPart { seen_part: false }, data: Seq::<u8>::empty() },
    ) {
        assert forall|i: int| 0 <= i < before.uploads.len() implies after.uploads[i]
            == before.uploads[i] by {}
    } else {
        let (i, event, fresh) = choose|i: int, event: EventText, fresh: Seq<char>|
            #![trigger next(before.uploads[i].stage, event, fresh)]
            upload_step(before, after, i, event, fresh);
        lemma_upload_step_keeps_isolated(before, after, i, event, fresh);
    }
}

/// No step of an upload breaks isolation.
pub proof fn lemma_upload_step_keeps_isolated(
    before: World,
    after: World,
    i: int,
    event: EventText,
    fresh: Seq<char>,
)
    requires
        isolated(before),
        upload_step(before, after, i, event, fresh),
    ensures
        isolated(after),
{
    let mine = held(after.uploads[i].stage);
    // What another upload holds was there before, is there still, unchanged,
    // and is not what this upload holds now.
    assert forall|j: int| 0 <= j < after.uploads.len() && j != i && (#[trigger] held(
        after.uploads[j].stage,
    )) is Some implies kept(before, after, held(after.uploads[j].stage)->0) && mine != held(
        after.uploads[j].stage,
    ) by {
        assert(after.uploads[j] == before.uploads[j]);
        let name = held(before.uploads[j].stage)->0;
        assert(before.files.contains_key(name));
        if held(before.uploads[i].stage) is Some {
            assert(held(before.uploads[i].stage) != held(before.uploads[j].stage));
        }
    }
    assert forall|j: int| 0 <= j < after.uploads.len() implies (#[trigger] held(
        after.uploads[j].stage,
    ) matches Some(name) ==> after.files.contains_key(name)) by {
        if j != i && held(after.uploads[j].stage) is Some {
            assert(kept(before, after, held(after.uploads[j].stage)->0));
        }
    }
    assert forall|j: int| 0 <= j < after.uploads.len() implies (
    #[trigger] after.uploads[j].stage matches StageText::Invoking { artifact }
        ==> after.files[artifact] == after.uploads[j].data) by {
        if j != i && after.uploads[j].stage is Invoking {
            assert(after.uploads[j] == before.uploads[j]);
            assert(held(after.uploads[j].stage) is Some);
            assert(kept(before, after, held(after.uploads[j].stage)->0));
        }
    }
    assert forall|j: int, k: int|
        0 <= j < after.uploads.len() && 0 <= k < after.uploads.len() && j != k && (#[trigger] held(
            after.uploads[j].stage,
        )) is Some implies held(after.uploads[j].stage) != #[trigger] held(
        after.uploads[k].stage,
    ) by {
        if j != i && k != i {
            assert(after.uploads[j] == before.uploads[j]);
            assert(after.uploads[k] == before.uploads[k]);
        } else if k != i {
            if held(after.uploads[k].stage) is Some {
                assert(mine != held(after.uploads[k].stage));
            }
        }
    }
}

/// The file of this name is in the directory before and after, with the same
/// bytes.
pub open spec fn kept(before: World, after: World, name: Seq<char>) -> bool {
    before.files.contains_key(name) && after.files.contains_key(name) && after.files[name]
        == before.files[name]
}

/// While the analyzer runs for an upload, the file it reads holds the bytes
/// of that upload and of no other.
pub proof fn lemma_analyzer_reads_own_upload(world: World, i: int, artifact: Seq<char>)
    requires
        isolated(world),
        0 <= i < world.uploads.len(),
        world.uploads[i].stage == (StageText::Invoking { artifact }),
    ensures
        awaited(world.uploads[i].stage) == (ActionText::Run { command: command_text(artifact) }),
        world.files.contains_key(artifact),
        world.files[artifact] == world.uploads[i].data,
        forall|j: int|
            0 <= j < world.uploads.len() && j != i ==> held(#[trigger] world.uploads[j].stage)
                != Some(artifact),
{
    assert(held(world.uploads[i].stage) == Some(artifact));
}

} // verus!
