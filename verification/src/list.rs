//! The repository-list loader: turns the lines of a plain-text list into the
//! initial batch state, one remote record per valid line. In fault-tolerant
//! mode invalid lines are skipped; in strict mode any invalid line fails the
//! whole load.

use vstd::prelude::*;
use crate::data::{
    parse_repo_line, BaseDataDefn, BaseStateDefn, DataElement, DataElementModel, RepoDefn,
    RepoDefnModel,
};

verus! {

/// What can go wrong while reading a repository list.
#[derive(Clone, Copy, Debug, PartialEq, Eq, Structural)]
pub enum ListError {
    /// One line was neither an `owner/name` shorthand nor a repository URL.
    InvalidLine,
    /// The list as a whole was rejected because some line was invalid and the
    /// load was strict.
    WrongFormat,
}

impl ListError {
    /// A human-readable description of the error.
    pub fn message(&self) -> (r: String)
        ensures
            *self == ListError::InvalidLine ==> r@ == "Line was not in a valid format"@,
            *self == ListError::WrongFormat ==> r@
                == "Repository list was not in the right format"@,
    {
        match self {
            ListError::InvalidLine => String::from_str("Line was not in a valid format"),
            ListError::WrongFormat => String::from_str(
                "Repository list was not in the right format",
            ),
        }
    }
}

/// The remote records the given lines parse to, in line order, with lines
/// that do not parse left out.
pub open spec fn parsed_remotes(lines: Seq<Seq<char>>) -> Seq<RepoDefnModel>
    decreases lines.len(),
{
    if lines.len() == 0 {
        Seq::empty()
    } else {
        let rest = parsed_remotes(lines.drop_last());
        match parse_repo_line(lines.last()) {
            Some(p) => rest.push(
                RepoDefnModel { owner: p.0, name: p.1, main_branch_name: None },
            ),
            None => rest,
        }
    }
}

/// How many of the given lines do not parse.
pub open spec fn invalid_count(lines: Seq<Seq<char>>) -> int
    decreases lines.len(),
{
    if lines.len() == 0 {
        0
    } else {
        invalid_count(lines.drop_last()) + if parse_repo_line(lines.last()) is None {
            1int
        } else {
            0int
        }
    }
}

/// The number of lines that would be skipped, for reporting.
pub fn invalid_line_count(lines: &Vec<String>) -> (n: usize)
    ensures
        n as int == invalid_count(lines.deep_view()),
{
    let mut bad: usize = 0;
    let mut i: usize = 0;
    proof {
        assert(lines.deep_view().take(0) =~= Seq::<Seq<char>>::empty());
    }
    while i < lines.len()
        invariant
            i <= lines@.len(),
            bad <= i,
            lines.deep_view().len() == lines@.len(),
            bad as int == invalid_count(lines.deep_view().take(i as int)),
        decreases lines@.len() - i,
    {
        proof {
            assert(lines.deep_view().take(i + 1).drop_last() =~= lines.deep_view().take(
                i as int,
            ));
            assert(lines.deep_view().take(i + 1).last() == lines@[i as int]@);
        }
        if RepoDefn::new(lines[i].as_str()).is_err() {
            bad += 1;
        }
        i += 1;
    }
    proof {
        assert(lines.deep_view().take(lines@.len() as int) =~= lines.deep_view());
    }
    bad
}

/// Parses a repository list into the initial batch state: one remote record
/// per valid line, in line order. A strict load fails outright when any line
/// is invalid; a fault-tolerant load skips invalid lines.
pub fn read_repo_list(lines: &Vec<String>, fault_tolerant: bool) -> (r: Result<
    Box<BaseStateDefn>,
    ListError,
>)
    ensures
        match r {
            Ok(state) => {
                &&& fault_tolerant || invalid_count(lines.deep_view()) == 0
                &&& state.data@.repos =~= parsed_remotes(lines.deep_view()).map_values(
                    |m: RepoDefnModel| DataElementModel::RemoteRepo(m),
                )
                &&& state.pr_description is None
                &&& state.pr_title is None
            },
            Err(e) => {
                &&& e == ListError::WrongFormat
                &&& !fault_tolerant
                &&& invalid_count(lines.deep_view()) > 0
            },
        },
{
    let mut repos: Vec<DataElement> = Vec::new();
    let mut bad: usize = 0;
    let mut i: usize = 0;
    proof {
        assert(lines.deep_view().take(0) =~= Seq::<Seq<char>>::empty());
        assert(repos@.map_values(|e: DataElement| e@) =~= parsed_remotes(
            lines.deep_view().take(0),
        ).map_values(|m: RepoDefnModel| DataElementModel::RemoteRepo(m)));
    }
    while i < lines.len()
        invariant
            i <= lines@.len(),
            bad <= i,
            lines.deep_view().len() == lines@.len(),
            bad as int == invalid_count(lines.deep_view().take(i as int)),
            repos@.map_values(|e: DataElement| e@) =~= parsed_remotes(
                lines.deep_view().take(i as int),
            ).map_values(|m: RepoDefnModel| DataElementModel::RemoteRepo(m)),
        decreases lines@.len() - i,
    {
        proof {
            assert(lines.deep_view().take(i + 1).drop_last() =~= lines.deep_view().take(
                i as int,
            ));
            assert(lines.deep_view().take(i + 1).last() == lines@[i as int]@);
        }
        match RepoDefn::new(lines[i].as_str()) {
            Ok(d) => {
                let ghost repos0 = repos@;
                repos.push(DataElement::RemoteRepo(d));
                proof {
                    let lv = lines.deep_view();
                    match parse_repo_line(lv[i as int]) {
                        Some(p) => {
                            assert(d@ == RepoDefnModel {
                                owner: p.0,
                                name: p.1,
                                main_branch_name: None,
                            });
                            assert(parsed_remotes(lv.take(i + 1)) == parsed_remotes(
                                lv.take(i as int),
                            ).push(d@));
                        },
                        None => {
                            assert(false);
                        },
                    }
                    assert(repos@.map_values(|e: DataElement| e@) =~= repos0.map_values(
                        |e: DataElement| e@,
                    ).push(DataElementModel::RemoteRepo(d@)));
                    assert(parsed_remotes(lv.take(i + 1)).map_values(
                        |m: RepoDefnModel| DataElementModel::RemoteRepo(m),
                    ) =~= parsed_remotes(lv.take(i as int)).map_values(
                        |m: RepoDefnModel| DataElementModel::RemoteRepo(m),
                    ).push(DataElementModel::RemoteRepo(d@)));
                }
            },
            Err(_) => {
                bad += 1;
            },
        }
        i += 1;
    }
    proof {
        assert(lines.deep_view().take(lines@.len() as int) =~= lines.deep_view());
    }
    if bad > 0 && !fault_tolerant {
        return Err(ListError::WrongFormat);
    }
    Ok(Box::new(BaseStateDefn {
        data: BaseDataDefn { repos },
        pr_description: None,
        pr_title: None,
    }))
}

} // verus!
