//! Shell-name extraction: the name of the shell is the parent process's
//! executable name, cut off before the first dot so that an extension
//! such as ".exe" does not show.
use vstd::prelude::*;

use vstd::string::StrSliceExecFns;

verus! {

/// The prefix of `name` before its first dot; all of `name` when it
/// holds no dot.
pub open spec fn spec_before_dot(name: Seq<char>) -> Seq<char>
    decreases name.len(),
{
    if name.len() == 0 {
        Seq::<char>::empty()
    } else if name.first() == '.' {
        Seq::<char>::empty()
    } else {
        seq![name.first()] + spec_before_dot(name.drop_first())
    }
}

/// The prefix before the first dot is the subrange up to the first index
/// that holds a dot (or up to the end, when none does).
proof fn lemma_before_dot_prefix(name: Seq<char>, i: int)
    requires
        0 <= i <= name.len(),
        forall|j: int| 0 <= j < i ==> name[j] != '.',
        i < name.len() ==> name[i] == '.',
    ensures
        spec_before_dot(name) == name.subrange(0, i),
    decreases name.len(),
{
    if i == 0 {
        assert(name.subrange(0, 0) =~= Seq::<char>::empty());
    } else {
        let rest = name.drop_first();
        assert(forall|j: int| 0 <= j < i - 1 ==> rest[j] != '.');
        lemma_before_dot_prefix(rest, i - 1);
        assert(seq![name.first()] + rest.subrange(0, i - 1) =~= name.subrange(0, i));
    }
}

/// Whatever the name was, the extracted prefix never contains a dot.
pub proof fn lemma_before_dot_no_dot(name: Seq<char>)
    ensures
        forall|i: int|
            0 <= i < spec_before_dot(name).len() ==> spec_before_dot(name)[i] != '.',
    decreases name.len(),
{
    if name.len() > 0 && name.first() != '.' {
        lemma_before_dot_no_dot(name.drop_first());
        let rest = spec_before_dot(name.drop_first());
        assert forall|i: int|
            0 <= i < spec_before_dot(name).len() implies spec_before_dot(name)[i] != '.' by {
            if i > 0 {
                assert(spec_before_dot(name)[i] == rest[i - 1]);
            }
        }
    }
}

/// Cuts an executable name off before its first dot, leaving a dotless
/// name whole.
pub fn extract_shell_name(name: &str) -> (r: String)
    ensures
        r@ == spec_before_dot(name@),
{
    let n = name.unicode_len();
    let mut i: usize = 0;
    while i < n
        invariant
            0 <= i <= n,
            n as nat == name@.len(),
            forall|j: int| 0 <= j < i ==> name@[j] != '.',
        decreases n - i,
    {
        if name.get_char(i) == '.' {
            proof {
                lemma_before_dot_prefix(name@, i as int);
            }
            let prefix = name.substring_char(0, i);
            return String::from_str(prefix);
        }
        i = i + 1;
    }
    proof {
        lemma_before_dot_prefix(name@, n as int);
        assert(name@.subrange(0, n as int) =~= name@);
    }
    String::from_str(name)
}

} // verus!
