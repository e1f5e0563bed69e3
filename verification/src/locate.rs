//! Installation locator: turns the configuration-store record for the
//! application into the directory that holds its executable.

use vstd::prelude::*;
use crate::LaunchError;

verus! {

/// Path separator bytes: backslash and forward slash.
pub open spec fn is_sep(b: u8) -> bool {
    b == 0x5c || b == 0x2f
}

/// Parent directory of a path given as bytes: everything before the last
/// separator, or nothing when the path has no separator.
pub open spec fn spec_parent_dir(p: Seq<u8>) -> Option<Seq<u8>>
    decreases p.len(),
{
    if p.len() == 0 {
        None
    } else if is_sep(p[p.len() - 1]) {
        Some(p.subrange(0, p.len() - 1))
    } else {
        spec_parent_dir(p.subrange(0, p.len() - 1))
    }
}

/// Everything before the last path separator of `p`, if `p` has one.
pub fn parent_dir(p: &Vec<u8>) -> (r: Option<Vec<u8>>)
    ensures
        match r {
            Some(d) => spec_parent_dir(p@) == Some(d@),
            None => spec_parent_dir(p@) is None,
        },
{
    let mut i: usize = p.len();
    proof {
        assert(p@.subrange(0, p@.len() as int) =~= p@);
    }
    while i > 0
        invariant
            i <= p.len(),
            spec_parent_dir(p@) == spec_parent_dir(p@.subrange(0, i as int)),
        decreases i,
    {
        let b = p[i - 1];
        if b == 0x5c || b == 0x2f {
            let mut d: Vec<u8> = Vec::new();
            let mut j: usize = 0;
            while j < i - 1
                invariant
                    j <= i - 1,
                    i <= p.len(),
                    d@ == p@.subrange(0, j as int),
                decreases i - 1 - j,
            {
                d.push(p[j]);
                proof {
                    assert(d@ =~= p@.subrange(0, j + 1 as int));
                }
                j += 1;
            }
            proof {
                let pre = p@.subrange(0, i as int);
                assert(is_sep(pre[pre.len() - 1]));
                assert(pre.subrange(0, pre.len() - 1) =~= p@.subrange(0, i - 1 as int));
            }
            return Some(d);
        }
        proof {
            let pre = p@.subrange(0, i as int);
            assert(!is_sep(pre[pre.len() - 1]));
            assert(pre.subrange(0, pre.len() - 1) =~= p@.subrange(0, i - 1 as int));
        }
        i -= 1;
    }
    proof {
        assert(p@.subrange(0, 0) =~= Seq::<u8>::empty());
    }
    None
}

/// Resolves the installation directory from the configuration-store record,
/// given as the recorded executable path when the record exists.  A missing
/// record is terminal for the launch attempt; a recorded path without any
/// directory component is a malformed record.
pub fn get_nt_dir(record: Option<Vec<u8>>) -> (r: Result<Vec<u8>, LaunchError>)
    ensures
        match record {
            None => r == Err::<Vec<u8>, LaunchError>(LaunchError::NotFound),
            Some(p) => match spec_parent_dir(p@) {
                Some(d) => r matches Ok(v) && v@ == d,
                None => r == Err::<Vec<u8>, LaunchError>(LaunchError::ConfigStoreError),
            },
        },
{
    match record {
        None => Err(LaunchError::NotFound),
        Some(p) => match parent_dir(&p) {
            Some(d) => Ok(d),
            None => Err(LaunchError::ConfigStoreError),
        },
    }
}

} // verus!
