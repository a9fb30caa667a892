//! Splitting of bundle-command arguments.
//!
//! A bundle invocation names the packages to build either as a leading run
//! of `-p <name>` pairs or as one leading package name; everything after
//! the packages passes through to the bundler unchanged.

use vstd::prelude::*;
use crate::strutil::str_eq;

verus! {

/// The error of an argument list that names no package.
#[derive(Clone, Copy, Debug, PartialEq, Eq, Structural)]
pub enum ArgsError {
    /// The argument list is empty.
    MissingPackageName,
    /// A `-p` flag has no package name after it.
    MissingPackageAfterFlag,
}

/// What splitting a leading run of `-p <name>` pairs yields: the names, and
/// the remaining arguments.  The run ends at the first argument pair whose
/// flag position is not `-p`.
pub open spec fn spec_take_flagged(args: Seq<Seq<char>>) -> Result<
    (Seq<Seq<char>>, Seq<Seq<char>>),
    ArgsError,
>
    decreases args.len(),
{
    if args.len() < 2 {
        Err(ArgsError::MissingPackageAfterFlag)
    } else {
        let name = args[1];
        let rest = args.skip(2);
        if rest.len() > 0 && rest[0] == "-p"@ {
            match spec_take_flagged(rest) {
                Ok(pair) => Ok((seq![name] + pair.0, pair.1)),
                Err(e) => Err(e),
            }
        } else {
            Ok((seq![name], rest))
        }
    }
}

/// What splitting the bundle arguments yields: the packages named up
/// front, and the arguments passed through to the bundler.
pub open spec fn spec_split_bundle_args(args: Seq<Seq<char>>) -> Result<
    (Seq<Seq<char>>, Seq<Seq<char>>),
    ArgsError,
> {
    if args.len() == 0 {
        Err(ArgsError::MissingPackageName)
    } else if args[0] != "-p"@ {
        Ok((seq![args[0]], args.drop_first()))
    } else {
        spec_take_flagged(args)
    }
}

/// Collects the leading `-p <name>` run beginning at `start`, where the
/// argument at `start` is expected to be the flag.
fn take_flagged(args: &Vec<String>, start: usize) -> (r: Result<
    (Vec<String>, Vec<String>),
    ArgsError,
>)
    requires
        start <= args@.len(),
    ensures
        match r {
            Result::Ok(pair) => spec_take_flagged(args.deep_view().skip(start as int)) == Ok::<
                (Seq<Seq<char>>, Seq<Seq<char>>),
                ArgsError,
            >((pair.0.deep_view(), pair.1.deep_view())),
            Result::Err(e) => spec_take_flagged(args.deep_view().skip(start as int)) == Err::<
                (Seq<Seq<char>>, Seq<Seq<char>>),
                ArgsError,
            >(e),
        },
    decreases args@.len() - start,
{
    let ghost suffix = args.deep_view().skip(start as int);
    let n = args.len();
    if n - start < 2 {
        return Err(ArgsError::MissingPackageAfterFlag);
    }
    let name = args[start + 1].clone();
    proof {
        assert(name@ == suffix[1]);
    }
    let rest_start = start + 2;
    proof {
        assert(suffix.skip(2) =~= args.deep_view().skip(rest_start as int));
    }
    if rest_start < n && str_eq(args[rest_start].as_str(), "-p") {
        proof {
            assert(suffix.skip(2)[0] == args.deep_view()[rest_start as int]);
        }
        match take_flagged(args, rest_start) {
            Ok(pair) => {
                let (mut more, rest) = pair;
                let ghost more0 = more.deep_view();
                let mut packages: Vec<String> = Vec::new();
                packages.push(name);
                packages.append(&mut more);
                proof {
                    assert(packages.deep_view() =~= seq![suffix[1]] + more0);
                }
                Ok((packages, rest))
            },
            Err(e) => Err(e),
        }
    } else {
        let mut packages: Vec<String> = Vec::new();
        packages.push(name);
        let mut rest: Vec<String> = Vec::new();
        let mut j: usize = rest_start;
        while j < n
            invariant
                n == args@.len(),
                rest_start <= j <= n,
                rest.deep_view() =~= args.deep_view().subrange(rest_start as int, j as int),
            decreases n - j,
        {
            let ghost r0 = rest.deep_view();
            rest.push(args[j].clone());
            proof {
                assert(rest.deep_view() =~= r0.push(args.deep_view()[j as int]));
                assert(args.deep_view().subrange(rest_start as int, j as int + 1)
                    =~= args.deep_view().subrange(rest_start as int, j as int).push(
                    args.deep_view()[j as int]));
                assert(rest.deep_view() =~= args.deep_view().subrange(
                    rest_start as int,
                    j as int + 1,
                ));
            }
            j += 1;
        }
        proof {
            assert(rest.deep_view() =~= suffix.skip(2));
            assert(packages.deep_view() =~= seq![suffix[1]]);
            if suffix.skip(2).len() > 0 {
                assert(suffix.skip(2)[0] == args.deep_view()[rest_start as int]);
            }
        }
        Ok((packages, rest))
    }
}

/// Splits the arguments of a bundle command into the packages named up
/// front — a leading run of `-p <name>` pairs, or one leading package name
/// — and the remaining arguments, which pass through unchanged.  An empty
/// list, or a `-p` with nothing after it, is rejected.
pub fn split_bundle_args(args: Vec<String>) -> (r: Result<
    (Vec<String>, Vec<String>),
    ArgsError,
>)
    ensures
        match r {
            Result::Ok(pair) => spec_split_bundle_args(args.deep_view()) == Ok::<
                (Seq<Seq<char>>, Seq<Seq<char>>),
                ArgsError,
            >((pair.0.deep_view(), pair.1.deep_view())),
            Result::Err(e) => spec_split_bundle_args(args.deep_view()) == Err::<
                (Seq<Seq<char>>, Seq<Seq<char>>),
                ArgsError,
            >(e),
        },
{
    let n = args.len();
    if n == 0 {
        return Err(ArgsError::MissingPackageName);
    }
    if str_eq(args[0].as_str(), "-p") {
        let r = take_flagged(&args, 0);
        proof {
            assert(args.deep_view().skip(0) =~= args.deep_view());
        }
        r
    } else {
        let mut packages: Vec<String> = Vec::new();
        packages.push(args[0].clone());
        let mut rest: Vec<String> = Vec::new();
        let mut j: usize = 1;
        while j < n
            invariant
                n == args@.len(),
                1 <= j <= n,
                rest.deep_view() =~= args.deep_view().subrange(1, j as int),
            decreases n - j,
        {
            let ghost r0 = rest.deep_view();
            rest.push(args[j].clone());
            proof {
                assert(rest.deep_view() =~= r0.push(args.deep_view()[j as int]));
                assert(args.deep_view().subrange(1, j as int + 1) =~= args.deep_view().subrange(
                    1,
                    j as int,
                ).push(args.deep_view()[j as int]));
                assert(rest.deep_view() =~= args.deep_view().subrange(1, j as int + 1));
            }
            j += 1;
        }
        proof {
            assert(rest.deep_view() =~= args.deep_view().drop_first());
            assert(packages.deep_view() =~= seq![args.deep_view()[0]]);
        }
        Ok((packages, rest))
    }
}

} // verus!
