//! Names of stored artifacts and the command that analyses one.
//!
//! An upload is stored under a name of twenty random letters and digits
//! followed by `.ps1`. The name only keeps uploads apart: it is no secret and
//! protects nothing. The analysis command is built from such a name without
//! any escaping, so a command is only ever built from an [`ArtifactName`],
//! which holds nothing but letters, digits and the one `.` of its suffix.

use crate::text::chars_of;
use vstd::prelude::*;
use vstd::string::StringExecFns;

verus! {

/// How many random characters a name starts with.
pub const STEM_LENGTH: usize = 20;

/// The program that is handed the analysis command.
pub const INTERPRETER: &'static str = "powershell";

/// The argument that stands before the analysis command.
pub const COMMAND_FLAG: &'static str = "-Command";

/// How many seconds an analysis may take before it is given up.
pub const ANALYSIS_TIMEOUT_SECONDS: u64 = 300;

/// An ASCII letter or digit.
pub open spec fn is_alphanumeric(c: char) -> bool {
    ('0' <= c && c <= '9') || ('A' <= c && c <= 'Z') || ('a' <= c && c <= 'z')
}

/// `text` holds letters and digits only.
pub open spec fn all_alphanumeric(text: Seq<char>) -> bool {
    forall|i: int| 0 <= i < text.len() ==> is_alphanumeric(#[trigger] text[i])
}

/// `text` can start a name: twenty letters and digits.
pub open spec fn is_stem(text: Seq<char>) -> bool {
    text.len() == STEM_LENGTH && all_alphanumeric(text)
}

/// The name of an artifact: a stem followed by `.ps1`.
pub open spec fn is_artifact_name(name: Seq<char>) -> bool {
    exists|stem: Seq<char>| #[trigger] is_stem(stem) && name == stem + ".ps1"@
}

/// The command that analyses the artifact stored under `name` and prints one
/// line of four tab-separated fields for each issue.
pub open spec fn command_text(name: Seq<char>) -> Seq<char> {
    "$a=Invoke-ScriptAnalyzer "@ + name
        + ";foreach($b in $a){$b.RuleName+\"`t\"+$b.Severity+\"`t\"+$b.Line+\"`t\"+$b.Message}"@
}

/// Draws `length` random letters and digits.
///
/// Trusted: stands for `rand::Rng::sample_iter` on `rand::thread_rng()` with
/// the distribution `rand::distributions::Alphanumeric`, cut off by `take`.
/// The distribution yields bytes out of `A-Z`, `a-z` and `0-9` and never
/// ends, so the text has `length` characters, each one a letter or a digit.
/// Nothing is claimed of which ones.
#[verifier::external_body]
fn generate_random_string(length: usize) -> (r: String)
    ensures
        r@.len() == length,
        all_alphanumeric(r@),
{
    rand::Rng::sample_iter(rand::thread_rng(), &rand::distributions::Alphanumeric)
        .take(length)
        .map(char::from)
        .collect()
}

/// Executable form of [`is_alphanumeric`].
pub fn alphanumeric(c: char) -> (r: bool)
    ensures
        r == is_alphanumeric(c),
{
    ('0' <= c && c <= '9') || ('A' <= c && c <= 'Z') || ('a' <= c && c <= 'z')
}

/// Executable form of [`is_stem`].
pub fn check_stem(text: &str) -> (r: bool)
    ensures
        r == is_stem(text@),
{
    let chars = chars_of(text);
    if chars.len() != STEM_LENGTH {
        return false;
    }
    let mut i: usize = 0;
    while i < chars.len()
        invariant
            i <= chars@.len(),
            chars@ == text@,
            chars@.len() == STEM_LENGTH,
            forall|j: int| 0 <= j < i ==> is_alphanumeric(#[trigger] chars@[j]),
        decreases chars@.len() - i,
    {
        if !alphanumeric(chars[i]) {
            return false;
        }
        i += 1;
    }
    true
}

/// The name under which one upload is stored.
pub struct ArtifactName {
    name: String,
}

impl View for ArtifactName {
    type V = Seq<char>;

    closed spec fn view(&self) -> Seq<char> {
        self.name@
    }
}

impl ArtifactName {
    #[verifier::type_invariant]
    closed spec fn well_formed(&self) -> bool {
        is_artifact_name(self.name@)
    }

    /// The name that starts with `stem`, or `None` where `stem` is not twenty
    /// letters and digits.
    pub fn from_stem(stem: &str) -> (r: Option<ArtifactName>)
        ensures
            r is Some == is_stem(stem@),
            r matches Some(name) ==> name@ == stem@ + ".ps1"@,
    {
        if check_stem(stem) {
            let mut name = String::from_str(stem);
            name.append(".ps1");
            Some(ArtifactName { name })
        } else {
            None
        }
    }

    /// A fresh random name. Two calls may give the same name, though they
    /// hardly ever will: who stores under it must not overwrite.
    pub fn generate() -> (r: ArtifactName)
        ensures
            is_artifact_name(r@),
    {
        let stem = generate_random_string(STEM_LENGTH);
        let ghost drawn = stem@;
        let mut name = stem;
        name.append(".ps1");
        assert(is_stem(drawn));
        ArtifactName { name }
    }

    /// The name as text.
    pub fn as_str(&self) -> (r: &str)
        ensures
            r@ == self@,
            is_artifact_name(r@),
    {
        proof {
            use_type_invariant(self);
        }
        self.name.as_str()
    }
}

/// Builds the command that analyses the artifact stored under `artifact`.
pub fn analysis_command(artifact: &ArtifactName) -> (r: String)
    ensures
        r@ == command_text(artifact@),
        is_artifact_name(artifact@),
{
    let mut command = String::from_str("$a=Invoke-ScriptAnalyzer ");
    command.append(artifact.as_str());
    command.append(
        ";foreach($b in $a){$b.RuleName+\"`t\"+$b.Severity+\"`t\"+$b.Line+\"`t\"+$b.Message}",
    );
    command
}

/// A name holds nothing but letters, digits and `.`: nothing that the
/// interpreter of the analysis command reads as more than a file name.
pub proof fn lemma_name_is_plain(name: Seq<char>)
    requires
        is_artifact_name(name),
    ensures
        name.len() == STEM_LENGTH + 4,
        forall|i: int|
            0 <= i < name.len() ==> is_alphanumeric(#[trigger] name[i]) || name[i] == '.',
{
    reveal_strlit(".ps1");
    let stem = choose|stem: Seq<char>| #[trigger] is_stem(stem) && name == stem + ".ps1"@;
    assert forall|i: int| 0 <= i < name.len() implies is_alphanumeric(#[trigger] name[i])
        || name[i] == '.' by {
        if i < stem.len() {
            assert(name[i] == stem[i]);
        } else {
            assert(name[i] == ".ps1"@[i - stem.len()]);
        }
    }
}

} // verus!
