//! The deterministic scratch file that carries denoised audio between
//! stages: a fixed subdirectory of the system's temporary root, plus the
//! input file's base name. No randomization: one run per input at a time.
use vstd::prelude::*;

use crate::errors::PipelineError;

verus! {

/// The scratch directory under the temporary root: the root, a separator
/// unless the root already ends with one (or is empty), and the fixed
/// subdirectory name.
pub open spec fn spec_scratch_dir(root: Seq<char>) -> Seq<char> {
    if root.len() == 0 {
        "media_cutter_tmp"@
    } else if root.last() == '/' {
        root + "media_cutter_tmp"@
    } else {
        root + "/"@ + "media_cutter_tmp"@
    }
}

/// Where a path's base name starts: just after the last `/`, or the start
/// when there is none.
pub open spec fn spec_base_start(s: Seq<char>) -> int
    decreases s.len(),
{
    if s.len() == 0 {
        0
    } else if s.last() == '/' {
        s.len() as int
    } else {
        spec_base_start(s.drop_last())
    }
}

/// A path's base name: everything after the last `/`; empty when the path is
/// empty or ends with a separator.
pub open spec fn spec_base_name(s: Seq<char>) -> Seq<char> {
    s.subrange(spec_base_start(s), s.len() as int)
}

/// The scratch file for an input: its base name inside the scratch
/// directory.
pub open spec fn spec_scratch_file(root: Seq<char>, input: Seq<char>) -> Seq<char> {
    spec_scratch_dir(root) + "/"@ + spec_base_name(input)
}

proof fn lemma_base_start_bounds(s: Seq<char>)
    ensures
        0 <= spec_base_start(s) <= s.len(),
    decreases s.len(),
{
    if s.len() > 0 && s.last() != '/' {
        lemma_base_start_bounds(s.drop_last());
    }
}

/// Builds the scratch directory's path under the given temporary root.
pub fn scratch_dir_path(tmp_root: &str) -> (r: String)
    ensures
        r@ == spec_scratch_dir(tmp_root@),
{
    proof {
        reveal_strlit("/");
    }
    let n = tmp_root.unicode_len();
    if n == 0 {
        String::from_str("media_cutter_tmp")
    } else {
        let mut s = String::from_str(tmp_root);
        if tmp_root.get_char(n - 1) != '/' {
            s.append("/");
        }
        s.append("media_cutter_tmp");
        proof {
            assert(s@ =~= spec_scratch_dir(tmp_root@));
        }
        s
    }
}

/// Where the base name of `s` starts.
fn base_name_start(s: &str) -> (r: usize)
    ensures
        r == spec_base_start(s@),
        0 <= r <= s@.len(),
{
    let n = s.unicode_len();
    let mut i: usize = n;
    proof {
        assert(s@.take(n as int) =~= s@);
    }
    while i > 0 && s.get_char(i - 1) != '/'
        invariant
            0 <= i <= n,
            n == s@.len(),
            spec_base_start(s@) == spec_base_start(s@.take(i as int)),
        decreases i,
    {
        proof {
            assert(s@.take(i as int).drop_last() =~= s@.take(i - 1 as int));
            assert(s@.take(i as int).last() == s@[i - 1 as int]);
        }
        i = i - 1;
    }
    proof {
        if i > 0 {
            assert(s@.take(i as int).last() == s@[i - 1 as int]);
        }
        lemma_base_start_bounds(s@.take(i as int));
    }
    i
}

/// Computes the scratch file's path for an input: the input's base name
/// inside the scratch directory under the given temporary root. An input
/// with no base name — empty, or ending in a separator — is a caller mistake
/// reported before anything is spawned.
pub fn scratch_file_path(tmp_root: &str, input_file: &str) -> (r: Result<String, PipelineError>)
    ensures
        (if spec_base_name(input_file@).len() == 0 {
            r matches Err(PipelineError::Validation { message }) && message@
                == "Error: no input file provided."@
        } else {
            r matches Ok(p) && p@ == spec_scratch_file(tmp_root@, input_file@)
        }),
{
    proof {
        reveal_strlit("/");
    }
    let n = input_file.unicode_len();
    let start = base_name_start(input_file);
    proof {
        assert(spec_base_name(input_file@).len() == n - start);
    }
    if start == n {
        Err(
            PipelineError::Validation {
                message: String::from_str("Error: no input file provided."),
            },
        )
    } else {
        let base = input_file.substring_char(start, n);
        let mut s = scratch_dir_path(tmp_root);
        s.append("/");
        s.append(base);
        proof {
            assert(s@ =~= spec_scratch_file(tmp_root@, input_file@));
        }
        Ok(s)
    }
}

} // verus!
