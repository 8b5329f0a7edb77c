//! The names of the temporary worktrees that refs are checked out into.

use vstd::prelude::*;
use vstd::string::*;

use crate::refname::is_ascii_alnum;

verus! {

/// A lower-case hexadecimal digit.
pub open spec fn is_hex_char(c: char) -> bool {
    '0' <= c <= '9' || 'a' <= c <= 'f'
}

/// A random (version 4) UUID written without hyphens: 32 digits, of which one
/// is the version and one the variant.
pub open spec fn is_random_id(s: Seq<char>) -> bool {
    &&& s.len() == 32
    &&& forall|i: int| 0 <= i < s.len() ==> is_hex_char(#[trigger] s[i])
    &&& s[12] == '4'
    &&& s[16] == '8' || s[16] == '9' || s[16] == 'a' || s[16] == 'b'
}

/// `uuid::Uuid::new_v4`, printed by `uuid::fmt::Simple`: 32 lower-case
/// hexadecimal digits with the marks of a random UUID. Which ones is left to
/// the machine's source of randomness; without one there is no result.
#[verifier::external_body]
fn random_id() -> (id: String)
    ensures
        is_random_id(id@),
{
    uuid::Uuid::new_v4().simple().to_string()
}

/// The name of the worktree with the given id.
pub open spec fn worktree_name_of(id: Seq<char>) -> Seq<char> {
    "wt-"@ + id
}

/// A name that a fresh worktree may have.
pub open spec fn is_worktree_name(name: Seq<char>) -> bool {
    exists|id: Seq<char>| is_random_id(id) && name == #[trigger] worktree_name_of(id)
}

/// The name of the worktree with the given id.
pub fn worktree_name(id: &str) -> (name: String)
    ensures
        name@ == worktree_name_of(id@),
{
    let mut name = String::new();
    name.append("wt-");
    name.append(id);
    assert(name@ =~= worktree_name_of(id@));
    name
}

/// The name of a new worktree.
pub fn fresh_worktree_name() -> (name: String)
    ensures
        is_worktree_name(name@),
{
    let id = random_id();
    worktree_name(&id)
}

/// Worktrees with different ids have different names.
pub proof fn law_worktree_names_differ(a: Seq<char>, b: Seq<char>)
    ensures
        worktree_name_of(a) == worktree_name_of(b) <==> a == b,
{
    if worktree_name_of(a) == worktree_name_of(b) {
        let n = "wt-"@.len() as int;
        assert(worktree_name_of(a).skip(n) =~= a);
        assert(worktree_name_of(b).skip(n) =~= b);
    }
}

/// The name of a fresh worktree is a single component of a path: 35 letters,
/// digits and hyphens.
pub proof fn law_worktree_name_is_one_component(name: Seq<char>)
    requires
        is_worktree_name(name),
    ensures
        name.len() == 35,
        forall|i: int|
            0 <= i < name.len() ==> is_ascii_alnum(#[trigger] name[i]) || name[i]
                == '-',
{
    let id = choose|id: Seq<char>| is_random_id(id) && name == #[trigger] worktree_name_of(id);
    reveal_strlit("wt-");
    assert forall|i: int| 0 <= i < name.len() implies is_ascii_alnum(
        #[trigger] name[i],
    ) || name[i] == '-' by {
        if i >= 3 {
            assert(name[i] == id[i - 3]);
        }
    }
}

/// The name of a worktree is `wt-` and then its id, as it is.
pub proof fn law_worktree_name_shows_the_id(id: Seq<char>)
    ensures
        worktree_name_of(id).len() == id.len() + 3,
        worktree_name_of(id)[0] == 'w',
        worktree_name_of(id)[1] == 't',
        worktree_name_of(id)[2] == '-',
        worktree_name_of(id).skip(3) == id,
{
    reveal_strlit("wt-");
    assert(worktree_name_of(id).skip(3) =~= id);
}

} // verus!
