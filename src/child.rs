use vstd::prelude::*;

verus! {

/// Why running an installed update did not end in success.
#[derive(Debug, Clone, Copy, PartialEq, Eq, Structural)]
pub enum Error {
    /// No version record exists, or it cannot be read.
    BinaryNotFound,
    /// The child ran and exited with this non-zero status code.
    StatusCode(i32),
    /// The child could not be spawned, or ended without a status code.
    UnknownStatusCode,
}

/// What a child run yields, given whether it was spawned and the code it
/// reported on exit.
pub open spec fn spec_run_result(spawned: bool, code: Option<i32>) -> Result<(), Error> {
    if !spawned {
        Err(Error::UnknownStatusCode)
    } else {
        match code {
            Some(c) => if c == 0 { Ok(()) } else { Err(Error::StatusCode(c)) },
            None => Err(Error::UnknownStatusCode),
        }
    }
}

/// Maps the exit status of a delegated child to a run result: code 0 is
/// success, another code is kept as `StatusCode`, and a child that was not
/// spawned or gave no code is `UnknownStatusCode`.
pub fn run_result(spawned: bool, code: Option<i32>) -> (r: Result<(), Error>)
    ensures
        r == spec_run_result(spawned, code),
        r is Ok <==> (spawned && code == Some(0i32)),
{
    if !spawned {
        return Err(Error::UnknownStatusCode);
    }
    match code {
        Some(c) => {
            if c == 0 {
                Ok(())
            } else {
                Err(Error::StatusCode(c))
            }
        },
        None => Err(Error::UnknownStatusCode),
    }
}

/// The flags appended to a delegated child's arguments: the child may restart
/// itself and must run directly rather than look for updates again.
pub open spec fn spec_internal_flags() -> Seq<Seq<char>> {
    seq!["--can-restart"@, "--force-direct"@]
}

/// The arguments handed to a delegated child: the supervisor's own arguments
/// without the program name, followed by the internal flags.
pub fn child_arguments(args: &Vec<String>) -> (r: Vec<String>)
    requires
        args@.len() < usize::MAX - 2,
    ensures
        r@.len() == (if args@.len() == 0 { 0 } else { args@.len() - 1 }) + 2,
        forall|i: int| 0 <= i < r@.len() - 2 ==> r@[i]@ == #[trigger] args@[i + 1]@,
        r@[r@.len() - 2]@ == spec_internal_flags()[0],
        r@[r@.len() - 1]@ == spec_internal_flags()[1],
{
    let mut r: Vec<String> = Vec::new();
    let mut i: usize = 1;
    while i < args.len()
        invariant
            1 <= i,
            i == 1 || i <= args@.len(),
            r@.len() == i - 1,
            forall|j: int| 0 <= j < r@.len() ==> r@[j]@ == #[trigger] args@[j + 1]@,
        decreases args@.len() - i,
    {
        r.push(args[i].clone());
        i = i + 1;
    }
    proof {
        reveal_strlit("--can-restart");
        reveal_strlit("--force-direct");
    }
    r.push("--can-restart".to_owned());
    r.push("--force-direct".to_owned());
    r
}

} // verus!
