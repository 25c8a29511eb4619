use vstd::prelude::*;

use crate::config::{api_key_key, project_id_key, ConfigStore, ScopeKind};
use crate::error::ReqError;
use crate::text::{decimal, decimal_string};
use crate::url::{detect_provider, detected_provider, host, host_of, repo_path, repo_path_of, Provider};

verus! {

/// One open merge or pull request, as the provider lists it.
#[derive(Debug, Clone)]
pub struct RequestSummary {
    /// The request's number within its project.
    pub id: u64,
    /// The name of the request's source branch at the provider.
    pub source_branch: String,
    /// The request's title.
    pub title: String,
}

/// The view of an optional string.
pub open spec fn opt_view(o: Option<String>) -> Option<Seq<char>> {
    match o {
        Some(s) => Some(s@),
        None => None,
    }
}

/// A client for one remote's hosting provider.
#[derive(Debug, Clone)]
pub struct RemoteClient {
    /// Which provider the remote points at.
    pub provider: Provider,
    /// The remote's name (`origin`).
    pub remote_name: String,
    /// The host the provider's API authenticates against.
    pub domain: String,
    /// The project the provider's API is asked about: the project binding
    /// for GitLab, the `owner/repo` path of the URL for GitHub.
    pub project: Option<String>,
    /// The API key stored for the domain, when it was asked for.
    pub api_key: Option<String>,
}

/// The project that a client for `provider` on `url` works on.
pub open spec fn project_for(
    provider: Provider,
    remote_name: Seq<char>,
    url: Seq<char>,
    store: Map<Seq<char>, Seq<char>>,
) -> Option<Seq<char>> {
    match provider {
        Provider::GitLab => if store.contains_key(project_id_key(remote_name)) {
            Some(store[project_id_key(remote_name)])
        } else {
            None
        },
        Provider::GitHub => Some(repo_path_of(url)),
    }
}

/// The API key that a client on `url` is given.
pub open spec fn api_key_for(url: Seq<char>, store: Map<Seq<char>, Seq<char>>, fetch: bool) -> Option<
    Seq<char>,
> {
    if fetch && store.contains_key(api_key_key(host_of(url))) {
        Some(store[api_key_key(host_of(url))])
    } else {
        None
    }
}

/// The client is the one built for remote `remote_name` at `url`.
pub open spec fn client_matches(
    c: RemoteClient,
    remote_name: Seq<char>,
    url: Seq<char>,
    store: Map<Seq<char>, Seq<char>>,
    fetch: bool,
) -> bool {
    &&& detected_provider(url) == Some(c.provider)
    &&& c.remote_name@ == remote_name
    &&& c.domain@ == host_of(url)
    &&& opt_view(c.project) == project_for(c.provider, remote_name, url, store)
    &&& opt_view(c.api_key) == api_key_for(url, store, fetch)
}

/// Builds the client for remote `remote_name` whose URL is `remote_url`: the
/// provider comes from the URL's host, the project binding and (when
/// `fetch_api_key` holds) the domain's API key from `store`.
pub fn get_remote(remote_name: &str, remote_url: &str, store: &ConfigStore, fetch_api_key: bool) -> (r:
    Result<RemoteClient, ReqError>)
    requires
        store.wf(),
    ensures
        match r {
            Ok(c) => client_matches(c, remote_name@, remote_url@, store@, fetch_api_key),
            Err(e) => detected_provider(remote_url@).is_none() && e == ReqError::ProviderNotRecognized,
        },
{
    let provider = match detect_provider(remote_url) {
        Ok(p) => p,
        Err(e) => {
            return Err(e);
        },
    };
    let domain = host(remote_url);
    let project = match provider {
        Provider::GitLab => store.get(ScopeKind::Remote, remote_name, "projectid"),
        Provider::GitHub => Some(repo_path(remote_url)),
    };
    let api_key = if fetch_api_key {
        store.get(ScopeKind::Domain, domain.as_str(), "apikey")
    } else {
        None
    };
    Ok(RemoteClient { provider, remote_name: String::from_str(remote_name), domain, project, api_key })
}

/// The first index at or after `i` of a request numbered `id`, or the
/// length when there is none.
pub open spec fn first_request(reqs: Seq<RequestSummary>, id: u64, i: int) -> int
    decreases reqs.len() - i,
{
    if i < 0 || i >= reqs.len() {
        reqs.len() as int
    } else if reqs[i].id == id {
        i
    } else {
        first_request(reqs, id, i + 1)
    }
}

/// Some request of the list is numbered `id`.
pub open spec fn has_request(reqs: Seq<RequestSummary>, id: u64) -> bool {
    exists|i: int| 0 <= i < reqs.len() && #[trigger] reqs[i].id == id
}

pub open spec fn github_remote_prefix() -> Seq<char> {
    seq!['p', 'u', 'l', 'l', '/']
}

pub open spec fn github_remote_suffix() -> Seq<char> {
    seq!['/', 'h', 'e', 'a', 'd']
}

pub open spec fn github_local_prefix() -> Seq<char> {
    seq!['p', 'r', '/']
}

/// The provider's own name for the source branch of request `req`:
/// GitLab's is the request's source branch, GitHub's is `pull/<id>/head`.
pub open spec fn remote_branch_spec(p: Provider, req: RequestSummary) -> Seq<char> {
    match p {
        Provider::GitLab => req.source_branch@,
        Provider::GitHub => github_remote_prefix() + decimal(req.id as nat) + github_remote_suffix(),
    }
}

/// The local branch name for request `req`: GitLab's source branch as it
/// stands, `pr/<id>` for GitHub.
pub open spec fn local_branch_spec(p: Provider, req: RequestSummary) -> Seq<char> {
    match p {
        Provider::GitLab => req.source_branch@,
        Provider::GitHub => github_local_prefix() + decimal(req.id as nat),
    }
}

/// The provider's branch names mean something to a reader.
pub open spec fn useful_branch_names(p: Provider) -> bool {
    p == Provider::GitLab
}

/// The index of the first request numbered `id`, if any.
pub fn find_request(reqs: &Vec<RequestSummary>, id: u64) -> (r: Option<usize>)
    ensures
        match r {
            Some(i) => i as int == first_request(reqs@, id, 0) && i < reqs@.len() && reqs@[i as int].id == id,
            None => first_request(reqs@, id, 0) == reqs@.len() && !has_request(reqs@, id),
        },
{
    let mut i: usize = 0;
    while i < reqs.len()
        invariant
            i <= reqs@.len(),
            first_request(reqs@, id, 0) == first_request(reqs@, id, i as int),
            forall|j: int| 0 <= j < i ==> reqs@[j].id != id,
        decreases reqs@.len() - i,
    {
        if reqs[i].id == id {
            return Some(i);
        }
        i = i + 1;
    }
    None
}

/// `pull/<id>/head`.
fn github_remote_branch(id: u64) -> (r: String)
    ensures
        r@ == github_remote_prefix() + decimal(id as nat) + github_remote_suffix(),
{
    proof {
        reveal_strlit("pull/");
        reveal_strlit("/head");
    }
    let mut r = String::from_str("pull/");
    r.append(decimal_string(id).as_str());
    r.append("/head");
    assert("pull/"@ =~= github_remote_prefix());
    assert("/head"@ =~= github_remote_suffix());
    r
}

/// `pr/<id>`.
fn github_local_branch(id: u64) -> (r: String)
    ensures
        r@ == github_local_prefix() + decimal(id as nat),
{
    proof {
        reveal_strlit("pr/");
    }
    let mut r = String::from_str("pr/");
    r.append(decimal_string(id).as_str());
    assert("pr/"@ =~= github_local_prefix());
    r
}

/// An HTTP request to the provider's API.
#[derive(Debug, Clone)]
pub struct ApiCall {
    /// The endpoint.
    pub url: String,
    /// The name of the header that carries the credential.
    pub auth_header: String,
    /// The header's value.
    pub auth_value: String,
}

/// The endpoint that lists the open requests of `project` at `domain`.
pub open spec fn open_requests_endpoint(p: Provider, domain: Seq<char>, project: Seq<char>) -> Seq<
    char,
> {
    match p {
        Provider::GitLab => "https://"@ + domain + "/api/v4/projects/"@ + project
            + "/merge_requests?state=opened"@,
        Provider::GitHub => "https://api."@ + domain + "/repos/"@ + project + "/pulls?state=open"@,
    }
}

/// The header that carries the API key.
pub open spec fn auth_header_spec(p: Provider) -> Seq<char> {
    match p {
        Provider::GitLab => "PRIVATE-TOKEN"@,
        Provider::GitHub => "Authorization"@,
    }
}

/// The header's value for API key `key`.
pub open spec fn auth_value_spec(p: Provider, key: Seq<char>) -> Seq<char> {
    match p {
        Provider::GitLab => key,
        Provider::GitHub => "token "@ + key,
    }
}

impl RemoteClient {
    /// The domain the provider's API authenticates against; API keys are
    /// stored under it.
    pub fn get_domain(&self) -> (r: String)
        ensures
            r@ == self.domain@,
    {
        self.domain.clone()
    }

    /// Whether the provider's remote branch names can be shown to a reader.
    pub fn has_useful_branch_names(&self) -> (r: bool)
        ensures
            r == useful_branch_names(self.provider),
    {
        match self.provider {
            Provider::GitLab => true,
            Provider::GitHub => false,
        }
    }

    /// The API request that lists the project's open requests. Fails when
    /// there is no API key, or (for GitLab) no project binding.
    pub fn open_requests_call(&self) -> (r: Result<ApiCall, ReqError>)
        ensures
            match r {
                Ok(call) => {
                    &&& self.api_key.is_some() && self.project.is_some()
                    &&& call.url@ == open_requests_endpoint(
                        self.provider,
                        self.domain@,
                        self.project.unwrap()@,
                    )
                    &&& call.auth_header@ == auth_header_spec(self.provider)
                    &&& call.auth_value@ == auth_value_spec(self.provider, self.api_key.unwrap()@)
                },
                Err(e) => {
                    ||| (self.api_key.is_none() && e == ReqError::AuthenticationMissingOrInvalid)
                    ||| (self.api_key.is_some() && self.project.is_none() && e
                        == ReqError::ProjectNotConfigured)
                },
            },
    {
        let key = match &self.api_key {
            Some(k) => k,
            None => {
                return Err(ReqError::AuthenticationMissingOrInvalid);
            },
        };
        let project = match &self.project {
            Some(p) => p,
            None => {
                return Err(ReqError::ProjectNotConfigured);
            },
        };
        match self.provider {
            Provider::GitLab => {
                let mut url = String::from_str("https://");
                url.append(self.domain.as_str());
                url.append("/api/v4/projects/");
                url.append(project.as_str());
                url.append("/merge_requests?state=opened");
                Ok(
                    ApiCall {
                        url,
                        auth_header: String::from_str("PRIVATE-TOKEN"),
                        auth_value: key.clone(),
                    },
                )
            },
            Provider::GitHub => {
                let mut url = String::from_str("https://api.");
                url.append(self.domain.as_str());
                url.append("/repos/");
                url.append(project.as_str());
                url.append("/pulls?state=open");
                let mut value = String::from_str("token ");
                value.append(key.as_str());
                Ok(
                    ApiCall {
                        url,
                        auth_header: String::from_str("Authorization"),
                        auth_value: value,
                    },
                )
            },
        }
    }

    /// The provider's name for the source branch of request `id`, among the
    /// open requests `reqs`; `RequestNotFound` when none is numbered `id`.
    pub fn get_remote_req_branch(&self, reqs: &Vec<RequestSummary>, id: u64) -> (r: Result<
        String,
        ReqError,
    >)
        ensures
            match r {
                Ok(b) => has_request(reqs@, id) && b@ == remote_branch_spec(
                    self.provider,
                    reqs@[first_request(reqs@, id, 0)],
                ),
                Err(e) => !has_request(reqs@, id) && e == ReqError::RequestNotFound,
            },
    {
        match find_request(reqs, id) {
            None => Err(ReqError::RequestNotFound),
            Some(i) => match self.provider {
                Provider::GitLab => Ok(reqs[i].source_branch.clone()),
                Provider::GitHub => Ok(github_remote_branch(reqs[i].id)),
            },
        }
    }

    /// The name of the local branch for request `id`, among the open
    /// requests `reqs`; `RequestNotFound` when none is numbered `id`.
    pub fn get_local_req_branch(&self, reqs: &Vec<RequestSummary>, id: u64) -> (r: Result<
        String,
        ReqError,
    >)
        ensures
            match r {
                Ok(b) => has_request(reqs@, id) && b@ == local_branch_spec(
                    self.provider,
                    reqs@[first_request(reqs@, id, 0)],
                ),
                Err(e) => !has_request(reqs@, id) && e == ReqError::RequestNotFound,
            },
    {
        match find_request(reqs, id) {
            None => Err(ReqError::RequestNotFound),
            Some(i) => match self.provider {
                Provider::GitLab => Ok(reqs[i].source_branch.clone()),
                Provider::GitHub => Ok(github_local_branch(reqs[i].id)),
            },
        }
    }
}

} // verus!
