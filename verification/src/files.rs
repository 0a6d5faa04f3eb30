//! Replacing a file without a reader ever seeing half of it.
//!
//! The new contents go to a temporary file in the same directory, which is
//! then renamed onto the target. The functions here say what to do next and
//! how the temporary file is called; the caller touches the disk.

use crate::text;
use crate::text::push_decimal;
use vstd::prelude::*;
use vstd::string::*;

verus! {

/// Permission bits of a file that only its owner may read or write.
pub const OWNER_ONLY_MODE: u32 = 0o600;

/// Why a file could not be replaced.
#[derive(Debug, PartialEq, Eq)]
pub enum SaveError {
    /// The disk refused a step.
    Io(String),
    /// The contents could not be turned into text.
    Serialize(String),
}

/// The step a replacement has reached.
#[derive(Debug, PartialEq, Eq)]
pub enum SaveStage {
    /// Create the directory, with its parents.
    CreateDir,
    /// Turn the contents into text.
    Serialize,
    /// Write the temporary file.
    WriteTemp,
    /// Restrict the temporary file to its owner.
    Restrict,
    /// Rename the temporary file onto the target.
    Rename,
    /// Remove the temporary file; the replacement has failed.
    Discard(SaveError),
    /// Nothing is left to do.
    Finished(Result<(), SaveError>),
}

/// What follows `stage` once it has ended in `result`.
pub open spec fn stage_after(
    stage: SaveStage,
    owner_only: bool,
    result: Result<(), String>,
) -> SaveStage {
    match (stage, result) {
        (SaveStage::CreateDir, Ok(_)) => SaveStage::Serialize,
        (SaveStage::CreateDir, Err(e)) => SaveStage::Finished(Err(SaveError::Io(e))),
        (SaveStage::Serialize, Ok(_)) => SaveStage::WriteTemp,
        (SaveStage::Serialize, Err(e)) => SaveStage::Finished(Err(SaveError::Serialize(e))),
        (SaveStage::WriteTemp, Ok(_)) => if owner_only {
            SaveStage::Restrict
        } else {
            SaveStage::Rename
        },
        (SaveStage::WriteTemp, Err(e)) => SaveStage::Discard(SaveError::Io(e)),
        (SaveStage::Restrict, Ok(_)) => SaveStage::Rename,
        (SaveStage::Restrict, Err(e)) => SaveStage::Discard(SaveError::Io(e)),
        (SaveStage::Rename, Ok(_)) => SaveStage::Finished(Ok(())),
        (SaveStage::Rename, Err(e)) => SaveStage::Discard(SaveError::Io(e)),
        (SaveStage::Discard(cause), _) => SaveStage::Finished(Err(cause)),
        (SaveStage::Finished(outcome), _) => SaveStage::Finished(outcome),
    }
}

/// The stage that follows `stage`, which has just ended in `result`.
///
/// `owner_only` asks for the temporary file to be restricted to its owner
/// before it takes the target's name. A failed removal of the temporary file
/// does not change the error that is reported.
pub fn next_stage(stage: SaveStage, owner_only: bool, result: Result<(), String>) -> (next:
    SaveStage)
    ensures
        next == stage_after(stage, owner_only, result),
{
    match stage {
        SaveStage::CreateDir => match result {
            Ok(_) => SaveStage::Serialize,
            Err(e) => SaveStage::Finished(Err(SaveError::Io(e))),
        },
        SaveStage::Serialize => match result {
            Ok(_) => SaveStage::WriteTemp,
            Err(e) => SaveStage::Finished(Err(SaveError::Serialize(e))),
        },
        SaveStage::WriteTemp => match result {
            Ok(_) => if owner_only {
                SaveStage::Restrict
            } else {
                SaveStage::Rename
            },
            Err(e) => SaveStage::Discard(SaveError::Io(e)),
        },
        SaveStage::Restrict => match result {
            Ok(_) => SaveStage::Rename,
            Err(e) => SaveStage::Discard(SaveError::Io(e)),
        },
        SaveStage::Rename => match result {
            Ok(_) => SaveStage::Finished(Ok(())),
            Err(e) => SaveStage::Discard(SaveError::Io(e)),
        },
        SaveStage::Discard(cause) => SaveStage::Finished(Err(cause)),
        SaveStage::Finished(outcome) => SaveStage::Finished(outcome),
    }
}

/// How each step of one replacement ends.
pub struct SaveResults {
    pub create: Result<(), String>,
    pub serialize: Result<(), String>,
    pub write: Result<(), String>,
    pub restrict: Result<(), String>,
    pub rename: Result<(), String>,
    pub discard: Result<(), String>,
}

/// How `stage` ends.
pub open spec fn result_at(results: SaveResults, stage: SaveStage) -> Result<(), String> {
    match stage {
        SaveStage::CreateDir => results.create,
        SaveStage::Serialize => results.serialize,
        SaveStage::WriteTemp => results.write,
        SaveStage::Restrict => results.restrict,
        SaveStage::Rename => results.rename,
        SaveStage::Discard(_) => results.discard,
        SaveStage::Finished(_) => Ok(()),
    }
}

/// Steps that can still follow a stage.
pub open spec fn stages_left(stage: SaveStage) -> nat {
    match stage {
        SaveStage::CreateDir => 6,
        SaveStage::Serialize => 5,
        SaveStage::WriteTemp => 4,
        SaveStage::Restrict => 3,
        SaveStage::Rename => 2,
        SaveStage::Discard(_) => 1,
        SaveStage::Finished(_) => 0,
    }
}

/// The stages a replacement goes through from `stage` to its end.
pub open spec fn stages_from(
    stage: SaveStage,
    owner_only: bool,
    results: SaveResults,
) -> Seq<SaveStage>
    decreases stages_left(stage),
{
    if stage is Finished {
        seq![stage]
    } else {
        seq![stage] + stages_from(
            stage_after(stage, owner_only, result_at(results, stage)),
            owner_only,
            results,
        )
    }
}

/// The stages of a whole replacement.
pub open spec fn stages(owner_only: bool, results: SaveResults) -> Seq<SaveStage> {
    stages_from(SaveStage::CreateDir, owner_only, results)
}

/// Did some step after the temporary file was begun fail?
pub open spec fn swap_failed(owner_only: bool, results: SaveResults) -> bool {
    results.write is Err || (owner_only && results.restrict is Err) || results.rename is Err
}

/// A replacement succeeds exactly when every step of it does.
pub proof fn law_saved_when_every_step_succeeds(owner_only: bool, results: SaveResults)
    ensures
        stages(owner_only, results).last() == SaveStage::Finished(Ok(())) <==> (
        results.create is Ok && results.serialize is Ok && !swap_failed(owner_only, results)),
        stages(owner_only, results).last() is Finished,
{
    reveal_with_fuel(stages_from, 7);
}

/// A temporary file is removed exactly when it was begun and the replacement
/// then failed, and the error of the failed step is what is reported.
pub proof fn law_failed_swap_discards_the_temporary_file(owner_only: bool, results: SaveResults)
    ensures
        (exists|i: int|
            0 <= i < stages(owner_only, results).len() && #[trigger] stages(
                owner_only,
                results,
            )[i] is Discard) <==> (results.create is Ok && results.serialize is Ok && swap_failed(
            owner_only,
            results,
        )),
        results.create is Ok && results.serialize is Ok && results.write is Err ==> stages(
            owner_only,
            results,
        ).last() == SaveStage::Finished(Err(SaveError::Io(results.write->Err_0))),
        results.create is Ok && results.serialize is Ok && results.write is Ok && owner_only
            && results.restrict is Err ==> stages(owner_only, results).last()
            == SaveStage::Finished(Err(SaveError::Io(results.restrict->Err_0))),
        results.create is Ok && results.serialize is Ok && results.write is Ok && (owner_only
            ==> results.restrict is Ok) && results.rename is Err ==> stages(
            owner_only,
            results,
        ).last() == SaveStage::Finished(Err(SaveError::Io(results.rename->Err_0))),
{
    reveal_with_fuel(stages_from, 7);
    let s = stages(owner_only, results);
    if results.create is Ok && results.serialize is Ok && swap_failed(owner_only, results) {
        assert(s[s.len() - 2] is Discard);
    }
}

/// The target is touched only once its whole new contents are on disk and, if
/// asked for, restricted to the owner.
pub proof fn law_target_is_replaced_by_a_complete_file(owner_only: bool, results: SaveResults)
    ensures
        forall|i: int|
            0 <= i < stages(owner_only, results).len() && #[trigger] stages(
                owner_only,
                results,
            )[i] is Rename ==> results.serialize is Ok && results.write is Ok && (owner_only
                ==> results.restrict is Ok),
{
    reveal_with_fuel(stages_from, 7);
}

/// Name of the temporary file for the `unique`-th write of a process.
pub open spec fn temp_name_of(file: Seq<char>, process_id: nat, unique: nat) -> Seq<char> {
    file + "."@ + text::decimal(process_id) + "."@ + text::decimal(unique) + ".tmp"@
}

/// Name of a temporary file that no other write uses: the process id and a
/// counter within the process tell concurrent writers apart.
pub fn temp_name(file: &str, process_id: u32, unique: u64) -> (name: String)
    ensures
        name@ == temp_name_of(file@, process_id as nat, unique as nat),
{
    let mut name = file.to_string();
    name.append(".");
    push_decimal(&mut name, process_id as u64);
    name.append(".");
    push_decimal(&mut name, unique);
    name.append(".tmp");
    name
}

/// Two writes share a temporary file only if they are the same write.
pub proof fn law_temporary_names_are_unique(
    file: Seq<char>,
    process_a: nat,
    unique_a: nat,
    process_b: nat,
    unique_b: nat,
)
    ensures
        temp_name_of(file, process_a, unique_a) == temp_name_of(file, process_b, unique_b)
            ==> process_a == process_b && unique_a == unique_b,
        temp_name_of(file, process_a, unique_a) != file,
{
    reveal_strlit(".");
    reveal_strlit(".tmp");
    let a = temp_name_of(file, process_a, unique_a);
    let b = temp_name_of(file, process_b, unique_b);
    let (pa, ua) = (text::decimal(process_a), text::decimal(unique_a));
    let (pb, ub) = (text::decimal(process_b), text::decimal(unique_b));
    let n = file.len() as int;
    assert(a.len() > file.len());
    text::lemma_decimal_digits(process_a);
    text::lemma_decimal_digits(process_b);
    if a == b {
        assert(a[n + 1 + pa.len()] == '.');
        assert(b[n + 1 + pb.len()] == '.');
        if pa.len() < pb.len() {
            assert(b[n + 1 + pa.len()] == pb[pa.len() as int]);
        }
        if pb.len() < pa.len() {
            assert(a[n + 1 + pb.len()] == pa[pb.len() as int]);
        }
        assert(pa =~= a.subrange(n + 1, n + 1 + pa.len()));
        assert(pb =~= b.subrange(n + 1, n + 1 + pb.len()));
        assert(ua =~= a.subrange(n + 2 + pa.len(), n + 2 + pa.len() + ua.len()));
        assert(ub =~= b.subrange(n + 2 + pb.len(), n + 2 + pb.len() + ub.len()));
        text::lemma_decimal_injective(process_a, process_b);
        text::lemma_decimal_injective(unique_a, unique_b);
    }
}

/// Every step that succeeds leads to the next one, in this order: directory,
/// text, temporary file, permissions where they are asked for, and the name of
/// the target.
pub proof fn law_steps_come_in_order(owner_only: bool)
    ensures
        stage_after(SaveStage::CreateDir, owner_only, Ok(())) is Serialize,
        stage_after(SaveStage::Serialize, owner_only, Ok(())) is WriteTemp,
        stage_after(SaveStage::WriteTemp, true, Ok(())) is Restrict,
        stage_after(SaveStage::WriteTemp, false, Ok(())) is Rename,
        stage_after(SaveStage::Restrict, owner_only, Ok(())) is Rename,
        stage_after(SaveStage::Rename, owner_only, Ok(())) == SaveStage::Finished(Ok(())),
{
}

/// A step that fails ends the replacement with its own error: at once before
/// the temporary file is begun, and by way of removing that file afterwards,
/// whether or not it can be removed.
pub proof fn law_a_failed_step_ends_with_its_error(
    owner_only: bool,
    cause: String,
    removal: Result<(), String>,
)
    ensures
        stage_after(SaveStage::CreateDir, owner_only, Err(cause)) == SaveStage::Finished(
            Err(SaveError::Io(cause)),
        ),
        stage_after(SaveStage::Serialize, owner_only, Err(cause)) == SaveStage::Finished(
            Err(SaveError::Serialize(cause)),
        ),
        stage_after(SaveStage::WriteTemp, owner_only, Err(cause)) == SaveStage::Discard(
            SaveError::Io(cause),
        ),
        stage_after(SaveStage::Restrict, owner_only, Err(cause)) == SaveStage::Discard(
            SaveError::Io(cause),
        ),
        stage_after(SaveStage::Rename, owner_only, Err(cause)) == SaveStage::Discard(
            SaveError::Io(cause),
        ),
        stage_after(SaveStage::Discard(SaveError::Io(cause)), owner_only, removal)
            == SaveStage::Finished(Err(SaveError::Io(cause))),
{
}

/// What a replacement has ended in does not change any more.
pub proof fn law_the_end_is_the_end(
    outcome: Result<(), SaveError>,
    owner_only: bool,
    result: Result<(), String>,
)
    ensures
        stage_after(SaveStage::Finished(outcome), owner_only, result) == SaveStage::Finished(
            outcome,
        ),
{
}

/// A temporary file is named after its target, in the same directory, and marked
/// as temporary.
pub proof fn law_temporary_names_begin_with_the_target(
    file: Seq<char>,
    process_id: nat,
    unique: nat,
)
    ensures
        temp_name_of(file, process_id, unique) == file + seq!['.'] + text::decimal(process_id)
            + seq!['.'] + text::decimal(unique) + seq!['.', 't', 'm', 'p'],
        OWNER_ONLY_MODE == 0o600,
{
    reveal_strlit(".");
    reveal_strlit(".tmp");
    assert("."@ =~= seq!['.']);
    assert(".tmp"@ =~= seq!['.', 't', 'm', 'p']);
}

} // verus!
