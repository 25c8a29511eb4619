use vstd::prelude::*;

use crate::client::{
    first_request, has_request, local_branch_spec, remote_branch_spec, useful_branch_names,
    RemoteClient, RequestSummary,
};
use crate::config::{
    api_key_key, deletion_report, project_id_key, ConfigStore, DeleteOutcome, ScopeKind,
};
use crate::error::ReqError;
use crate::text::{decimal, decimal_string};
use crate::url::{detect_provider, detected_provider, host, host_of, Provider};

verus! {

/// What a checkout has to do: make `local_branch` track `remote_branch` of
/// `remote_name`, and switch to it.
#[derive(Debug, Clone)]
pub struct CheckoutPlan {
    pub remote_name: String,
    pub remote_branch: String,
    pub local_branch: String,
    /// The reference on the remote that holds the request's commits.
    pub source_ref: String,
}

/// Where the provider keeps the branch named `remote_branch`: under
/// `refs/heads/` for GitLab, directly under `refs/` for GitHub's
/// `pull/<id>/head`.
pub open spec fn source_ref_spec(p: Provider, remote_branch: Seq<char>) -> Seq<char> {
    match p {
        Provider::GitLab => "refs/heads/"@ + remote_branch,
        Provider::GitHub => "refs/"@ + remote_branch,
    }
}

impl CheckoutPlan {
    /// The upstream the local branch tracks: `<remote>/<remote branch>`.
    pub fn upstream(&self) -> (r: String)
        ensures
            r@ == self.remote_name@ + "/"@ + self.remote_branch@,
    {
        let mut r = self.remote_name.clone();
        r.append("/");
        r.append(self.remote_branch.as_str());
        r
    }

    /// The local reference that mirrors the remote branch:
    /// `refs/remotes/<remote>/<remote branch>`.
    pub fn tracking_ref(&self) -> (r: String)
        ensures
            r@ == "refs/remotes/"@ + self.remote_name@ + "/"@ + self.remote_branch@,
    {
        let mut r = String::from_str("refs/remotes/");
        r.append(self.remote_name.as_str());
        r.append("/");
        r.append(self.remote_branch.as_str());
        r
    }

    /// The refspec that fetches the request's commits into `tracking_ref`.
    pub fn fetch_refspec(&self) -> (r: String)
        ensures
            r@ == "+"@ + self.source_ref@ + ":refs/remotes/"@ + self.remote_name@ + "/"@
                + self.remote_branch@,
    {
        let mut r = String::from_str("+");
        r.append(self.source_ref.as_str());
        r.append(":refs/remotes/");
        r.append(self.remote_name.as_str());
        r.append("/");
        r.append(self.remote_branch.as_str());
        r
    }
}

/// Resolves request `id` among the open requests `reqs` into the branches a
/// checkout needs; `RequestNotFound` when no open request is numbered `id`.
pub fn plan_checkout(client: &RemoteClient, reqs: &Vec<RequestSummary>, id: u64) -> (r: Result<
    CheckoutPlan,
    ReqError,
>)
    ensures
        match r {
            Ok(p) => {
                let req = reqs@[first_request(reqs@, id, 0)];
                &&& has_request(reqs@, id)
                &&& p.remote_name@ == client.remote_name@
                &&& p.remote_branch@ == remote_branch_spec(client.provider, req)
                &&& p.local_branch@ == local_branch_spec(client.provider, req)
                &&& p.source_ref@ == source_ref_spec(client.provider, p.remote_branch@)
            },
            Err(e) => !has_request(reqs@, id) && e == ReqError::RequestNotFound,
        },
{
    let remote_branch = match client.get_remote_req_branch(reqs, id) {
        Ok(b) => b,
        Err(e) => {
            return Err(e);
        },
    };
    let local_branch = match client.get_local_req_branch(reqs, id) {
        Ok(b) => b,
        Err(e) => {
            return Err(e);
        },
    };
    let mut source_ref = match client.provider {
        Provider::GitLab => String::from_str("refs/heads/"),
        Provider::GitHub => String::from_str("refs/"),
    };
    source_ref.append(remote_branch.as_str());
    Ok(
        CheckoutPlan {
            remote_name: client.remote_name.clone(),
            remote_branch,
            local_branch,
            source_ref,
        },
    )
}

/// One line of the listing: number, source branch (when the provider's
/// branch names are useful) and title, separated by tabs.
pub open spec fn listing_line(useful: bool, r: RequestSummary) -> Seq<char> {
    if useful {
        decimal(r.id as nat) + "\t"@ + r.source_branch@ + "\t"@ + r.title@ + "\n"@
    } else {
        decimal(r.id as nat) + "\t"@ + r.title@ + "\n"@
    }
}

/// The listing of `reqs`, one line each, in the order given.
pub open spec fn listing_text(useful: bool, reqs: Seq<RequestSummary>) -> Seq<char>
    decreases reqs.len(),
{
    if reqs.len() == 0 {
        Seq::empty()
    } else {
        listing_text(useful, reqs.drop_last()) + listing_line(useful, reqs.last())
    }
}

/// The tab-separated listing of `reqs`, before alignment.
pub fn request_table(useful: bool, reqs: &Vec<RequestSummary>) -> (r: String)
    ensures
        r@ == listing_text(useful, reqs@),
{
    let mut r = String::new();
    let mut i: usize = 0;
    while i < reqs.len()
        invariant
            i <= reqs@.len(),
            r@ == listing_text(useful, reqs@.subrange(0, i as int)),
        decreases reqs@.len() - i,
    {
        let req = &reqs[i];
        r.append(decimal_string(req.id).as_str());
        r.append("\t");
        if useful {
            r.append(req.source_branch.as_str());
            r.append("\t");
        }
        r.append(req.title.as_str());
        r.append("\n");
        assert(reqs@.subrange(0, i + 1).drop_last() =~= reqs@.subrange(0, i as int));
        i = i + 1;
    }
    assert(reqs@.subrange(0, i as int) =~= reqs@);
    r
}

/// The bytes that aligning the tab-separated columns of `text` (padding 4)
/// gives.
pub uninterp spec fn tab_aligned(text: Seq<char>) -> Seq<u8>;

/// Relies on tabwriter's `TabWriter` (built with `padding(4)`, written to
/// and taken apart with `into_inner`) to align the columns of `text`; what
/// it writes depends on the text alone.
#[verifier::external_body]
fn align_columns(text: &str) -> (r: Vec<u8>)
    ensures
        r@ == tab_aligned(text@),
{
    let mut tw = tabwriter::TabWriter::new(Vec::new()).padding(4);
    let _ = std::io::Write::write_all(&mut tw, text.as_bytes());
    tw.into_inner().unwrap_or_default()
}

/// The listing of the open requests `reqs`, columns aligned: number, source
/// branch and title where the provider's branch names are useful, number
/// and title otherwise.
pub fn list_open_requests(client: &RemoteClient, reqs: &Vec<RequestSummary>) -> (r: Vec<u8>)
    ensures
        r@ == tab_aligned(listing_text(useful_branch_names(client.provider), reqs@)),
{
    let table = request_table(client.has_useful_branch_names(), reqs);
    align_columns(table.as_str())
}

/// Stores `new_id` as the project binding of remote `remote_name`, whose URL
/// is `remote_url`. Fails, changing nothing, when the URL is of no known
/// provider.
pub fn set_project_id(store: &mut ConfigStore, remote_name: &str, remote_url: &str, new_id: &str) -> (r:
    Result<(), ReqError>)
    requires
        old(store).wf(),
    ensures
        final(store).wf(),
        match r {
            Ok(_) => detected_provider(remote_url@).is_some() && final(store)@ == old(store)@.insert(
                project_id_key(remote_name@),
                new_id@,
            ),
            Err(e) => detected_provider(remote_url@).is_none() && e == ReqError::ProviderNotRecognized
                && final(store)@ == old(store)@,
        },
{
    match detect_provider(remote_url) {
        Ok(_) => {
            store.set(ScopeKind::Remote, remote_name, "projectid", new_id);
            Ok(())
        },
        Err(e) => Err(e),
    }
}

/// Removes the project binding of remote `remote_name`; says whether there
/// was one. A missing binding is no failure.
pub fn clear_project_id(store: &mut ConfigStore, remote_name: &str, remote_url: &str) -> (r: Result<
    bool,
    ReqError,
>)
    requires
        old(store).wf(),
    ensures
        final(store).wf(),
        match r {
            Ok(found) => detected_provider(remote_url@).is_some() && found == old(store)@.contains_key(
                project_id_key(remote_name@),
            ) && final(store)@ == old(store)@.remove(project_id_key(remote_name@)),
            Err(e) => detected_provider(remote_url@).is_none() && e == ReqError::ProviderNotRecognized
                && final(store)@ == old(store)@,
        },
{
    match detect_provider(remote_url) {
        Ok(_) => Ok(store.delete(ScopeKind::Remote, remote_name, "projectid")),
        Err(e) => Err(e),
    }
}

/// Stores `new_key` as the API key of the domain that remote `remote_name`
/// (at `remote_url`) authenticates against.
pub fn set_domain_key(store: &mut ConfigStore, remote_name: &str, remote_url: &str, new_key: &str) -> (r:
    Result<(), ReqError>)
    requires
        old(store).wf(),
    ensures
        final(store).wf(),
        match r {
            Ok(_) => detected_provider(remote_url@).is_some() && final(store)@ == old(store)@.insert(
                api_key_key(host_of(remote_url@)),
                new_key@,
            ),
            Err(e) => detected_provider(remote_url@).is_none() && e == ReqError::ProviderNotRecognized
                && final(store)@ == old(store)@,
        },
{
    match detect_provider(remote_url) {
        Ok(_) => {
            let domain = host(remote_url);
            store.set(ScopeKind::Domain, domain.as_str(), "apikey", new_key);
            Ok(())
        },
        Err(e) => Err(e),
    }
}

/// Removes the API key of the domain that remote `remote_name` (at
/// `remote_url`) authenticates against; says whether there was one. A
/// missing key is no failure.
pub fn clear_domain_key(store: &mut ConfigStore, remote_name: &str, remote_url: &str) -> (r: Result<
    bool,
    ReqError,
>)
    requires
        old(store).wf(),
    ensures
        final(store).wf(),
        match r {
            Ok(found) => detected_provider(remote_url@).is_some() && found == old(store)@.contains_key(
                api_key_key(host_of(remote_url@)),
            ) && final(store)@ == old(store)@.remove(api_key_key(host_of(remote_url@))),
            Err(e) => detected_provider(remote_url@).is_none() && e == ReqError::ProviderNotRecognized
                && final(store)@ == old(store)@,
        },
{
    match detect_provider(remote_url) {
        Ok(_) => {
            let domain = host(remote_url);
            Ok(store.delete(ScopeKind::Domain, domain.as_str(), "apikey"))
        },
        Err(e) => Err(e),
    }
}

/// What an HTTP status from the provider's API means: success for 2xx, a
/// refused key for 401 and 403, any other status an API error.
pub open spec fn status_report(status: u16) -> Result<(), ReqError> {
    if 200 <= status < 300 {
        Ok(())
    } else if status == 401 || status == 403 {
        Err(ReqError::AuthenticationMissingOrInvalid)
    } else {
        Err(ReqError::ApiError(status))
    }
}

/// Classifies an HTTP status from the provider's API (see `status_report`).
pub fn response_status(status: u16) -> (r: Result<(), ReqError>)
    ensures
        r == status_report(status),
{
    if 200 <= status && status < 300 {
        Ok(())
    } else if status == 401 || status == 403 {
        Err(ReqError::AuthenticationMissingOrInvalid)
    } else {
        Err(ReqError::ApiError(status))
    }
}

/// The process exit status for a command's outcome: 0 on success, 1 on any
/// error.
pub fn exit_status<T>(outcome: &Result<T, ReqError>) -> (r: i32)
    ensures
        r == (if outcome.is_ok() {
            0i32
        } else {
            1i32
        }),
{
    match outcome {
        Ok(_) => 0,
        Err(_) => 1,
    }
}

/// An API key set for a domain and then cleared is gone, and clearing it
/// again leaves it gone; either clear reports success, whether or not a
/// key was there to delete.
pub proof fn lemma_domain_key_set_then_clear(
    m: Map<Seq<char>, Seq<char>>,
    domain: Seq<char>,
    key: Seq<char>,
)
    ensures
        !m.insert(api_key_key(domain), key).remove(api_key_key(domain)).contains_key(
            api_key_key(domain),
        ),
        !m.insert(api_key_key(domain), key).remove(api_key_key(domain)).remove(
            api_key_key(domain),
        ).contains_key(api_key_key(domain)),
        deletion_report(DeleteOutcome::Deleted) == Ok::<bool, ReqError>(true),
        deletion_report(DeleteOutcome::NotFound) == Ok::<bool, ReqError>(false),
{
}

/// A project binding set for a remote reads back as exactly the stored
/// string; once cleared, it reads back as absent.
pub proof fn lemma_project_id_round_trip(
    m: Map<Seq<char>, Seq<char>>,
    remote: Seq<char>,
    id: Seq<char>,
)
    ensures
        m.insert(project_id_key(remote), id).contains_key(project_id_key(remote)),
        m.insert(project_id_key(remote), id)[project_id_key(remote)] == id,
        !m.insert(project_id_key(remote), id).remove(project_id_key(remote)).contains_key(
            project_id_key(remote),
        ),
{
}

/// Where the provider's branch names are useful, the local branch of a
/// request is its remote branch. Where they are not, the two differ, and the
/// local branch depends on the request's number alone.
pub proof fn lemma_local_branch_naming(p: Provider, a: RequestSummary, b: RequestSummary)
    ensures
        useful_branch_names(p) ==> local_branch_spec(p, a) == remote_branch_spec(p, a),
        !useful_branch_names(p) ==> local_branch_spec(p, a) != remote_branch_spec(p, a),
        !useful_branch_names(p) && a.id == b.id ==> local_branch_spec(p, a) == local_branch_spec(
            p,
            b,
        ),
{
    if !useful_branch_names(p) {
        assert(local_branch_spec(p, a)[1] == 'r');
        assert(remote_branch_spec(p, a)[1] == 'u');
    }
}

} // verus!
