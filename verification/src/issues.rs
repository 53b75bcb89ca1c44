//! Repository summaries for the issue overview: what is read out of each
//! repository record the search collaborator returns, and the order the
//! overview lists them in. Querying the search service is input/output and
//! happens outside the library.

use vstd::prelude::*;

verus! {

use crate::mure_error::Error;
use vstd::multiset::Multiset;
use vstd::string::StrSliceExecFns;
use vstd::string::StringExecFns;

/// One repository record as the search collaborator hands it over: plain
/// values only, already freed of the transport's own types.
pub struct ApiRepository {
    pub name: String,
    pub issues_total_count: i64,
    pub pull_requests_total_count: i64,
    pub default_branch_name: Option<String>,
    pub url: String,
    pub latest_release_published_at: Option<String>,
}

/// The summary shown per repository.
pub struct GitHubRepoSummary {
    pub name: String,
    pub number_of_issues: i64,
    pub number_of_pull_requests: i64,
    pub default_branch_name: Option<String>,
    pub url: String,
    pub last_release_at: String,
}

/// A summary as one row of the overview.
pub struct RepositorySummary {
    pub github: GitHubRepoSummary,
}

/// Spec-level shape of a summary.
#[verifier::ext_equal]
pub ghost struct SummaryModel {
    pub name: Seq<char>,
    pub issues: int,
    pub pull_requests: int,
    pub default_branch: Option<Seq<char>>,
    pub url: Seq<char>,
    pub last_release: Seq<char>,
}

impl View for GitHubRepoSummary {
    type V = SummaryModel;

    open spec fn view(&self) -> SummaryModel {
        SummaryModel {
            name: self.name@,
            issues: self.number_of_issues as int,
            pull_requests: self.number_of_pull_requests as int,
            default_branch: match &self.default_branch_name {
                Some(b) => Some(b@),
                None => None,
            },
            url: self.url@,
            last_release: self.last_release_at@,
        }
    }
}

impl View for RepositorySummary {
    type V = SummaryModel;

    open spec fn view(&self) -> SummaryModel {
        self.github@
    }
}

/// The summary a repository record determines: the counts and names as
/// given, and the release date cut to its first ten characters, or the
/// placeholder when no release was published.
pub open spec fn api_summary_model(a: ApiRepository) -> SummaryModel {
    SummaryModel {
        name: a.name@,
        issues: a.issues_total_count as int,
        pull_requests: a.pull_requests_total_count as int,
        default_branch: match a.default_branch_name {
            Some(b) => Some(b@),
            None => None,
        },
        url: a.url@,
        last_release: match a.latest_release_published_at {
            Some(c) => c@.subrange(0, 10),
            None => "****-**-**"@,
        },
    }
}

impl GitHubRepoSummary {
    /// Builds the summary of one repository record. A published release
    /// date is an ISO timestamp, so it carries at least its ten date
    /// characters.
    pub fn new_from_api(repo: &ApiRepository) -> (s: GitHubRepoSummary)
        requires
            repo.latest_release_published_at matches Some(c) ==> c@.len() >= 10,
        ensures
            s@ == api_summary_model(*repo),
    {
        let last_release_at = match &repo.latest_release_published_at {
            Some(content) => content.as_str().substring_char(0, 10).to_owned(),
            None => "****-**-**".to_owned(),
        };
        let s = GitHubRepoSummary {
            name: repo.name.clone(),
            number_of_issues: repo.issues_total_count,
            number_of_pull_requests: repo.pull_requests_total_count,
            default_branch_name: match &repo.default_branch_name {
                Some(b) => Some(b.clone()),
                None => None,
            },
            url: repo.url.clone(),
            last_release_at,
        };
        proof {
            assert(s@ =~= api_summary_model(*repo));
        }
        s
    }
}

impl RepositorySummary {
    /// Wraps a summary as an overview row.
    pub fn new(github: GitHubRepoSummary) -> (r: RepositorySummary)
        ensures
            r@ == github@,
            r.github == github,
    {
        RepositorySummary { github }
    }

    /// How many pull requests are open.
    pub fn number_of_pull_requests(&self) -> (r: i64)
        ensures
            r == self.github.number_of_pull_requests,
    {
        self.github.number_of_pull_requests
    }

    /// How many issues are open.
    pub fn number_of_issues(&self) -> (r: i64)
        ensures
            r == self.github.number_of_issues,
    {
        self.github.number_of_issues
    }

    /// The default branch to show, falling back to `main`.
    pub fn default_branch(&self) -> (r: String)
        ensures
            r@ == (match self.github.default_branch_name {
                Some(b) => b@,
                None => "main"@,
            }),
    {
        match &self.github.default_branch_name {
            Some(b) => b.clone(),
            None => "main".to_owned(),
        }
    }
}

/// Which queries the issue overview runs: the ones given on the command
/// line when there are any; otherwise the configured ones, unless both a
/// single query and a query list are configured, which is rejected.
pub fn select_queries(cli_queries: &Vec<String>, github: &crate::config::GitHub) -> (r: Result<
    Vec<String>,
    Error,
>)
    ensures
        cli_queries@.len() > 0 ==> (r matches Ok(qs) && qs.deep_view()
            == cli_queries.deep_view()),
        cli_queries@.len() == 0 && github.query is Some && github.queries is Some ==> (r matches
            Err(e) && e@ == crate::mure_error::ErrorModel::Message(
            "Both query and queries are set. Please set only one of them."@,
        )),
        cli_queries@.len() == 0 && !(github.query is Some && github.queries is Some) ==> (
        r matches Ok(qs) && (match &github.queries {
            Some(conf) => qs.deep_view() == conf.deep_view(),
            None => match &github.query {
                Some(q) => qs.deep_view() == seq![q@],
                None => qs.deep_view() == Seq::<Seq<char>>::empty(),
            },
        })),
{
    if cli_queries.len() > 0 {
        let mut r: Vec<String> = Vec::new();
        let mut i: usize = 0;
        proof {
            assert(r.deep_view() =~= cli_queries.deep_view().take(0));
        }
        while i < cli_queries.len()
            invariant
                i <= cli_queries@.len(),
                r.deep_view() == cli_queries.deep_view().take(i as int),
            decreases cli_queries@.len() - i,
        {
            let ghost old_dv = r.deep_view();
            r.push(cli_queries[i].clone());
            proof {
                assert(r.deep_view() =~= old_dv.push(cli_queries.deep_view()[i as int]));
                assert(cli_queries.deep_view().take(i + 1) =~= old_dv.push(
                    cli_queries.deep_view()[i as int],
                ));
            }
            i += 1;
        }
        proof {
            assert(cli_queries.deep_view().take(cli_queries@.len() as int)
                =~= cli_queries.deep_view());
        }
        Ok(r)
    } else if github.is_both_query_and_queries_set() {
        Err(Error::from_str("Both query and queries are set. Please set only one of them."))
    } else {
        Ok(github.get_queries())
    }
}

/// The overview's order: more open pull requests first, ties broken by
/// more open issues first.
pub open spec fn summary_le(a: SummaryModel, b: SummaryModel) -> bool {
    a.pull_requests > b.pull_requests || (a.pull_requests == b.pull_requests && a.issues
        >= b.issues)
}

/// Is the sequence of summaries in the overview's order?
pub open spec fn summaries_sorted(s: Seq<SummaryModel>) -> bool {
    forall|i: int, j: int| 0 <= i < j < s.len() ==> summary_le(#[trigger] s[i], #[trigger] s[j])
}

/// The models of a sequence of rows.
pub open spec fn summary_models(s: Seq<RepositorySummary>) -> Seq<SummaryModel> {
    s.map_values(|r: RepositorySummary| r@)
}

/// The models a sequence of repository records determines.
pub open spec fn api_models(s: Seq<ApiRepository>) -> Seq<SummaryModel> {
    s.map_values(|a: ApiRepository| api_summary_model(a))
}

/// Exec-level comparison matching [`summary_le`].
fn summary_le_exec(a: &RepositorySummary, b: &RepositorySummary) -> (r: bool)
    ensures
        r == summary_le(a@, b@),
{
    a.github.number_of_pull_requests > b.github.number_of_pull_requests
        || (a.github.number_of_pull_requests == b.github.number_of_pull_requests
            && a.github.number_of_issues >= b.github.number_of_issues)
}

/// Sorts rows into the overview's order by repeatedly extracting a row
/// that precedes all remaining ones. The result is a permutation of the
/// input, in order.
fn sort_summaries(input: Vec<RepositorySummary>) -> (r: Vec<RepositorySummary>)
    ensures
        summary_models(r@).to_multiset() == summary_models(input@).to_multiset(),
        summaries_sorted(summary_models(r@)),
{
    broadcast use vstd::seq_lib::group_to_multiset_ensures;

    let ghost orig = summary_models(input@);
    let mut rest = input;
    let mut out: Vec<RepositorySummary> = Vec::new();
    proof {
        assert(summary_models(out@) =~= Seq::<SummaryModel>::empty());
        assert(summary_models(out@).to_multiset().add(summary_models(rest@).to_multiset())
            =~= orig.to_multiset());
    }
    while rest.len() > 0
        invariant
            summary_models(out@).to_multiset().add(summary_models(rest@).to_multiset())
                == orig.to_multiset(),
            summaries_sorted(summary_models(out@)),
            forall|i: int, j: int|
                0 <= i < out@.len() && 0 <= j < rest@.len() ==> summary_le(
                    #[trigger] summary_models(out@)[i],
                    #[trigger] summary_models(rest@)[j],
                ),
        decreases rest@.len(),
    {
        let mut best: usize = 0;
        let mut j: usize = 1;
        while j < rest.len()
            invariant
                best < j <= rest@.len(),
                rest@.len() > 0,
                forall|k: int|
                    0 <= k < j ==> summary_le(
                        summary_models(rest@)[best as int],
                        #[trigger] summary_models(rest@)[k],
                    ),
            decreases rest@.len() - j,
        {
            if !summary_le_exec(&rest[best], &rest[j]) {
                best = j;
            }
            j += 1;
        }
        let ghost old_out = out@;
        let ghost old_rest = rest@;
        let chosen = rest.remove(best);
        out.push(chosen);
        proof {
            assert(summary_models(old_rest)[best as int] == chosen@);
            assert(summary_models(out@) =~= summary_models(old_out).push(chosen@));
            assert(summary_models(rest@) =~= summary_models(old_rest).remove(best as int));
            vstd::seq_lib::to_multiset_build(summary_models(old_out), chosen@);
            assert(summary_models(out@).to_multiset() =~= summary_models(old_out).to_multiset()
                .insert(chosen@));
            vstd::seq_lib::to_multiset_remove(summary_models(old_rest), best as int);
            assert(summary_models(rest@).to_multiset() =~= summary_models(old_rest).to_multiset()
                .remove(chosen@));
            broadcast use vstd::multiset::group_multiset_axioms;

            assert(summary_models(old_rest).contains(chosen@));
            vstd::seq_lib::to_multiset_contains(summary_models(old_rest), chosen@);
            assert(summary_models(out@).to_multiset().add(summary_models(rest@).to_multiset())
                =~= orig.to_multiset());
            assert forall|i: int, j2: int|
                0 <= i < out@.len() && 0 <= j2 < rest@.len() implies summary_le(
                #[trigger] summary_models(out@)[i],
                #[trigger] summary_models(rest@)[j2],
            ) by {
                let jj = if j2 < best { j2 } else { j2 + 1 };
                assert(summary_models(rest@)[j2] == summary_models(old_rest)[jj]);
                if i < out@.len() - 1 {
                    assert(summary_models(out@)[i] == summary_models(old_out)[i]);
                } else {
                    assert(summary_models(out@)[i] == chosen@);
                }
            }
            assert(summaries_sorted(summary_models(out@)));
        }
    }
    proof {
        assert(summary_models(rest@) =~= Seq::<SummaryModel>::empty());
        assert(summary_models(out@).to_multiset().add(Multiset::<SummaryModel>::empty())
            =~= summary_models(out@).to_multiset());
    }
    out
}

/// Builds one overview row per repository record and sorts the rows: most
/// open pull requests first, ties broken by most open issues. The rows are
/// a permutation of the records' summaries.
pub fn repository_summary(repos: &Vec<ApiRepository>) -> (r: Result<
    Vec<RepositorySummary>,
    Error,
>)
    requires
        forall|i: int|
            0 <= i < repos@.len() ==> (#[trigger] repos@[i].latest_release_published_at matches
                Some(c) ==> c@.len() >= 10),
    ensures
        (r matches Ok(rows) && summary_models(rows@).to_multiset() == api_models(
            repos@,
        ).to_multiset() && summaries_sorted(summary_models(rows@))),
{
    let mut rows: Vec<RepositorySummary> = Vec::new();
    let mut i: usize = 0;
    proof {
        assert(summary_models(rows@) =~= api_models(repos@.take(0)));
    }
    while i < repos.len()
        invariant
            i <= repos@.len(),
            forall|k: int|
                0 <= k < repos@.len() ==> (#[trigger] repos@[k].latest_release_published_at matches
                    Some(c) ==> c@.len() >= 10),
            summary_models(rows@) == api_models(repos@.take(i as int)),
        decreases repos@.len() - i,
    {
        let ghost old_rows = rows@;
        let gh_summary = GitHubRepoSummary::new_from_api(&repos[i]);
        let summary = RepositorySummary::new(gh_summary);
        let ghost sm = summary@;
        rows.push(summary);
        proof {
            assert(sm == api_summary_model(repos@[i as int]));
            assert(summary_models(rows@) =~= summary_models(old_rows).push(sm));
            assert(api_models(repos@.take(i + 1)) =~= api_models(repos@.take(i as int)).push(
                api_summary_model(repos@[i as int]),
            ));
            assert(summary_models(rows@) =~= api_models(repos@.take(i + 1)));
        }
        i += 1;
    }
    proof {
        assert(repos@.take(repos@.len() as int) =~= repos@);
    }
    Ok(sort_summaries(rows))
}

} // verus!
