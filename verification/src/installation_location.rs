//! Finding a user's directory from the path of a file that lies within it.
//!
//! On a system that keeps its users' directories under `Users`, right below
//! the root of a drive, the path of any file of a user begins with the root,
//! `Users` and the user's name. Those leading parts are the user's directory.

use vstd::prelude::*;

verus! {

/// One part of a path.
#[derive(Debug)]
pub enum PathPart {
    /// A drive or a share, such as `C:`.
    Prefix,
    /// The root directory, which comes behind the prefix where there is one.
    RootDir,
    /// `.`
    CurDir,
    /// `..`
    ParentDir,
    /// The name of a file or directory.
    Normal(String),
}

/// What a `PathPart` holds, mathematically.
pub enum Part {
    Prefix,
    RootDir,
    CurDir,
    ParentDir,
    Normal(Seq<char>),
}

impl View for PathPart {
    type V = Part;

    open spec fn view(&self) -> Part {
        match self {
            PathPart::Prefix => Part::Prefix,
            PathPart::RootDir => Part::RootDir,
            PathPart::CurDir => Part::CurDir,
            PathPart::ParentDir => Part::ParentDir,
            PathPart::Normal(name) => Part::Normal(name@),
        }
    }
}

/// Why a path leads to no user's directory.
#[derive(Debug, Clone, Copy, PartialEq, Eq, Structural)]
pub enum LocationError {
    /// The path is relative.
    Relative,
    /// The path ends before a user's name.
    TooShort,
    /// The path does not lie under `Users`.
    NotUnderUsers,
}

/// The parts of a path, as their views.
pub open spec fn parts(path: Seq<PathPart>) -> Seq<Part> {
    Seq::new(path.len(), |i: int| path[i]@)
}

/// The place of the first root directory at or after `from`, or the number of
/// parts where there is none.
pub open spec fn root_place(path: Seq<Part>, from: int) -> int
    decreases path.len() - from,
{
    if from < 0 || from >= path.len() {
        path.len() as int
    } else if path[from] is RootDir {
        from
    } else {
        root_place(path, from + 1)
    }
}

/// The number of leading parts of `path` that make up the directory of the
/// user whose file it is.
pub open spec fn user_directory(path: Seq<Part>) -> Result<int, LocationError> {
    let root = root_place(path, 0);
    if root >= path.len() {
        Err(LocationError::Relative)
    } else if path.len() <= root + 2 {
        Err(LocationError::TooShort)
    } else if path[root + 1] != Part::Normal("Users"@) {
        Err(LocationError::NotUnderUsers)
    } else {
        Ok(root + 3)
    }
}

fn find_root(path: &Vec<PathPart>) -> (r: usize)
    ensures
        r == root_place(parts(path@), 0),
        r <= path@.len(),
{
    let mut k: usize = 0;
    while k < path.len()
        invariant
            k <= path@.len(),
            root_place(parts(path@), 0) == root_place(parts(path@), k as int),
        decreases path@.len() - k,
    {
        match &path[k] {
            PathPart::RootDir => {
                return k;
            },
            _ => {},
        }
        k = k + 1;
    }
    k
}

/// The number of leading parts of `path` that make up the directory of the
/// user whose file it is.
pub fn user_directory_length(path: &Vec<PathPart>) -> (r: Result<usize, LocationError>)
    ensures
        match r {
            Ok(n) => user_directory(parts(path@)) == Ok::<int, LocationError>(n as int) && n
                <= path@.len(),
            Err(e) => user_directory(parts(path@)) == Err::<int, LocationError>(e),
        },
{
    let root = find_root(path);
    let n = path.len();
    if root >= n {
        return Err(LocationError::Relative);
    }
    if n - root <= 2 {
        return Err(LocationError::TooShort);
    }
    let under_users = match &path[root + 1] {
        PathPart::Normal(name) => {
            let users = "Users".to_owned();
            *name == users
        },
        _ => false,
    };
    if under_users {
        Ok(root + 3)
    } else {
        Err(LocationError::NotUnderUsers)
    }
}

} // verus!
