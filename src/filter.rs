use vstd::prelude::*;

use crate::job::Job;

verus! {

/// The set of names held in `v`.
pub open spec fn name_set(v: Seq<String>) -> Set<Seq<char>> {
    v.map_values(|s: String| s@).to_set()
}

/// Which jobs an operation applies to.
#[derive(Clone, Debug)]
pub enum Filter {
    /// Every job but the excluded ones.
    All { exclude: Vec<String> },
    /// The jobs named in `jobs` or belonging to a group in `groups`, but
    /// never an excluded one.
    Subset { jobs: Vec<String>, groups: Vec<String>, exclude: Vec<String> },
}

/// The mathematical content of a [`Filter`].
pub enum FilterView {
    All { exclude: Set<Seq<char>> },
    Subset { jobs: Set<Seq<char>>, groups: Set<Seq<char>>, exclude: Set<Seq<char>> },
}

impl View for Filter {
    type V = FilterView;

    open spec fn view(&self) -> FilterView {
        match self {
            Filter::All { exclude } => FilterView::All { exclude: name_set(exclude@) },
            Filter::Subset { jobs, groups, exclude } => FilterView::Subset {
                jobs: name_set(jobs@),
                groups: name_set(groups@),
                exclude: name_set(exclude@),
            },
        }
    }
}

/// A job with this name and group is selected by `f`.
pub open spec fn filter_matches(f: FilterView, name: Seq<char>, group: Seq<char>) -> bool {
    match f {
        FilterView::All { exclude } => !exclude.contains(name),
        FilterView::Subset { jobs, groups, exclude } => !exclude.contains(name) && (
        groups.contains(group) || jobs.contains(name)),
    }
}

/// Whether `v` holds a string equal to `s`.
fn holds(v: &Vec<String>, s: &String) -> (r: bool)
    ensures
        r == name_set(v@).contains(s@),
{
    let ghost views = v@.map_values(|x: String| x@);
    let mut i: usize = 0;
    while i < v.len()
        invariant
            0 <= i <= v.len(),
            views == v@.map_values(|x: String| x@),
            forall|j: int| 0 <= j < i ==> views[j] != s@,
        decreases v.len() - i,
    {
        if v[i] == *s {
            assert(views[i as int] == s@);
            return true;
        }
        i = i + 1;
    }
    false
}

impl Filter {
    /// Whether `job` is selected: by name and group, with exclusion winning.
    pub fn matches(&self, job: &Job) -> (r: bool)
        ensures
            r == filter_matches(self@, job.name@, job.group@),
    {
        match self {
            Filter::All { exclude } => !holds(exclude, &job.name),
            Filter::Subset { jobs, groups, exclude } => {
                if holds(exclude, &job.name) {
                    return false;
                }
                holds(groups, &job.group) || holds(jobs, &job.name)
            },
        }
    }
}

/// The filter of a selection command: explicit groups or jobs give a
/// subset; otherwise a lone name selects that job, and no name selects all.
/// Exclusions apply in every case.
pub open spec fn standard_filter(
    name: Option<Seq<char>>,
    group: Seq<String>,
    job: Seq<String>,
    exclude: Seq<String>,
) -> FilterView {
    if group.len() == 0 && job.len() == 0 {
        match name {
            Some(n) => FilterView::Subset {
                jobs: set![n],
                groups: Set::empty(),
                exclude: name_set(exclude),
            },
            None => FilterView::All { exclude: name_set(exclude) },
        }
    } else {
        FilterView::Subset { jobs: name_set(job), groups: name_set(group), exclude: name_set(exclude) }
    }
}

/// The name a filter excludes.
pub open spec fn excludes(f: FilterView, name: Seq<char>) -> bool {
    match f {
        FilterView::All { exclude } => exclude.contains(name),
        FilterView::Subset { jobs: _, groups: _, exclude } => exclude.contains(name),
    }
}

/// Builds the filter of a selection command (see [`standard_filter`]).
pub fn standard_job_filter(
    name: Option<String>,
    _all: bool,
    group: Vec<String>,
    job: Vec<String>,
    exclude: Vec<String>,
) -> (r: Filter)
    ensures
        r@ == standard_filter(
            match name {
                Some(n) => Some(n@),
                None => None,
            },
            group@,
            job@,
            exclude@,
        ),
{
    if group.len() == 0 && job.len() == 0 {
        match name {
            Some(n) => {
                let ghost nv = n@;
                let jobs = vec![n];
                let groups: Vec<String> = Vec::new();
                assert(name_set(jobs@) =~= set![nv]) by {
                    assert(jobs@.map_values(|s: String| s@)[0] == nv);
                }
                assert(name_set(groups@) =~= Set::empty());
                Filter::Subset { groups, jobs, exclude }
            },
            None => Filter::All { exclude },
        }
    } else {
        Filter::Subset { groups: group, jobs: job, exclude }
    }
}

/// Exclusion wins: a job whose name a filter excludes is never selected,
/// whether or not its name or group is also listed.
pub proof fn lemma_exclusion_wins(f: FilterView, name: Seq<char>, group: Seq<char>)
    requires
        excludes(f, name),
    ensures
        !filter_matches(f, name, group),
{
}

/// A filter over all jobs selects exactly the jobs it does not exclude.
pub proof fn lemma_all_selects_unexcluded(exclude: Set<Seq<char>>, name: Seq<char>, group: Seq<char>)
    ensures
        filter_matches(FilterView::All { exclude }, name, group) <==> !exclude.contains(name),
{
}

} // verus!
