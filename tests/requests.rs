use git_req::client::{get_remote, RemoteClient, RequestSummary};
use git_req::commands::{
    clear_domain_key, clear_project_id, exit_status, list_open_requests, plan_checkout,
    request_table, response_status, set_domain_key, set_project_id,
};
use git_req::config::{
    api_key_config_key, config_key, deletion_result, project_id_config_key, ConfigStore,
    DeleteOutcome, ScopeKind,
};
use git_req::error::ReqError;
use git_req::text::decimal_string;
use git_req::url::{detect_provider, host, repo_path, Provider};

const GITLAB_URL: &str = "https://gitlab.example.com/group/proj.git";
const GITHUB_URL: &str = "git@github.com:owner/repo.git";

fn request(id: u64, branch: &str, title: &str) -> RequestSummary {
    RequestSummary { id, source_branch: branch.to_string(), title: title.to_string() }
}

fn gitlab_store() -> ConfigStore {
    let mut store = ConfigStore::new();
    set_project_id(&mut store, "origin", GITLAB_URL, "42").unwrap();
    set_domain_key(&mut store, "origin", GITLAB_URL, "abc123").unwrap();
    store
}

fn gitlab_client() -> RemoteClient {
    get_remote("origin", GITLAB_URL, &gitlab_store(), true).unwrap()
}

fn github_client() -> RemoteClient {
    let mut store = ConfigStore::new();
    set_domain_key(&mut store, "origin", GITHUB_URL, "tok").unwrap();
    get_remote("origin", GITHUB_URL, &store, true).unwrap()
}

#[test]
fn decimal_of_numbers() {
    assert_eq!(decimal_string(0), "0");
    assert_eq!(decimal_string(7), "7");
    assert_eq!(decimal_string(999), "999");
    assert_eq!(decimal_string(u64::MAX), "18446744073709551615");
}

#[test]
fn host_of_each_url_form() {
    assert_eq!(host(GITLAB_URL), "gitlab.example.com");
    assert_eq!(host(GITHUB_URL), "github.com");
    assert_eq!(host("ssh://git@gitlab.com:2222/a/b.git"), "gitlab.com");
    assert_eq!(host("https://user:pw@github.com/o/r"), "github.com");
    assert_eq!(host(""), "");
}

#[test]
fn repo_path_of_each_url_form() {
    assert_eq!(repo_path(GITLAB_URL), "group/proj");
    assert_eq!(repo_path(GITHUB_URL), "owner/repo");
    assert_eq!(repo_path("https://github.com/owner/repo"), "owner/repo");
    assert_eq!(repo_path("github.com"), "");
}

#[test]
fn detects_known_providers() {
    assert_eq!(detect_provider(GITLAB_URL), Ok(Provider::GitLab));
    assert_eq!(detect_provider("git@gitlab.com:a/b.git"), Ok(Provider::GitLab));
    assert_eq!(detect_provider(GITHUB_URL), Ok(Provider::GitHub));
    assert_eq!(detect_provider("https://github.com/o/r.git"), Ok(Provider::GitHub));
}

#[test]
fn unrecognized_host_is_refused() {
    assert_eq!(detect_provider("https://example.org/gitlab/x.git"), Err(ReqError::ProviderNotRecognized));
    assert_eq!(detect_provider("https://bitbucket.org/o/r.git"), Err(ReqError::ProviderNotRecognized));
}

#[test]
fn unrecognized_host_fails_every_command() {
    let url = "https://example.org/group/proj.git";
    let mut store = ConfigStore::new();
    let r = get_remote("origin", url, &store, true);
    assert_eq!(r.as_ref().err(), Some(&ReqError::ProviderNotRecognized));
    assert_eq!(exit_status(&r), 1);
    let r = get_remote("origin", url, &store, false);
    assert_eq!(r.as_ref().err(), Some(&ReqError::ProviderNotRecognized));
    assert_eq!(set_project_id(&mut store, "origin", url, "1"), Err(ReqError::ProviderNotRecognized));
    assert_eq!(clear_project_id(&mut store, "origin", url), Err(ReqError::ProviderNotRecognized));
    assert_eq!(set_domain_key(&mut store, "origin", url, "k"), Err(ReqError::ProviderNotRecognized));
    let r = clear_domain_key(&mut store, "origin", url);
    assert_eq!(r, Err(ReqError::ProviderNotRecognized));
    assert_eq!(exit_status(&r), 1);
}

#[test]
fn config_keys_are_namespaced() {
    assert_eq!(config_key(ScopeKind::Remote, "origin", "projectid"), "req-remote.origin.projectid");
    assert_eq!(project_id_config_key("upstream"), "req-remote.upstream.projectid");
    assert_eq!(api_key_config_key("gitlab.example.com"), "req-domain.gitlab.example.com.apikey");
}

#[test]
fn store_set_get_delete() {
    let mut store = ConfigStore::new();
    assert_eq!(store.get(ScopeKind::Remote, "origin", "projectid"), None);
    store.set(ScopeKind::Remote, "origin", "projectid", "1");
    store.set(ScopeKind::Remote, "origin", "projectid", "2");
    store.set(ScopeKind::Domain, "origin", "projectid", "3");
    assert_eq!(store.get(ScopeKind::Remote, "origin", "projectid"), Some("2".to_string()));
    assert_eq!(store.get(ScopeKind::Domain, "origin", "projectid"), Some("3".to_string()));
    assert!(store.delete(ScopeKind::Remote, "origin", "projectid"));
    assert!(!store.delete(ScopeKind::Remote, "origin", "projectid"));
    assert_eq!(store.get(ScopeKind::Remote, "origin", "projectid"), None);
    assert_eq!(store.get(ScopeKind::Domain, "origin", "projectid"), Some("3".to_string()));
}

#[test]
fn domain_key_set_then_cleared() {
    let mut store = ConfigStore::new();
    set_domain_key(&mut store, "origin", GITLAB_URL, "abc123").unwrap();
    assert_eq!(store.get(ScopeKind::Domain, "gitlab.example.com", "apikey"), Some("abc123".to_string()));
    assert_eq!(clear_domain_key(&mut store, "origin", GITLAB_URL), Ok(true));
    assert_eq!(store.get(ScopeKind::Domain, "gitlab.example.com", "apikey"), None);
    assert_eq!(clear_domain_key(&mut store, "origin", GITLAB_URL), Ok(false));
    assert_eq!(store.get(ScopeKind::Domain, "gitlab.example.com", "apikey"), None);
}

#[test]
fn domain_key_is_shared_by_remotes_of_one_host() {
    let mut store = ConfigStore::new();
    set_domain_key(&mut store, "origin", GITLAB_URL, "abc123").unwrap();
    let other = get_remote("fork", "git@gitlab.example.com:me/proj.git", &store, true).unwrap();
    assert_eq!(other.api_key, Some("abc123".to_string()));
    let unfetched = get_remote("fork", "git@gitlab.example.com:me/proj.git", &store, false).unwrap();
    assert_eq!(unfetched.api_key, None);
}

#[test]
fn deletion_outcomes() {
    assert_eq!(deletion_result(DeleteOutcome::Deleted), Ok(true));
    assert_eq!(deletion_result(DeleteOutcome::NotFound), Ok(false));
    assert_eq!(
        deletion_result(DeleteOutcome::Failed("locked".to_string())),
        Err(ReqError::ConfigStoreError("locked".to_string()))
    );
}

#[test]
fn project_id_round_trip() {
    let mut store = ConfigStore::new();
    set_project_id(&mut store, "origin", GITLAB_URL, "group/proj 42").unwrap();
    assert_eq!(store.get(ScopeKind::Remote, "origin", "projectid"), Some("group/proj 42".to_string()));
    assert_eq!(clear_project_id(&mut store, "origin", GITLAB_URL), Ok(true));
    assert_eq!(store.get(ScopeKind::Remote, "origin", "projectid"), None);
    assert_eq!(clear_project_id(&mut store, "origin", GITLAB_URL), Ok(false));
}

#[test]
fn gitlab_client_from_store() {
    let c = gitlab_client();
    assert_eq!(c.provider, Provider::GitLab);
    assert_eq!(c.remote_name, "origin");
    assert_eq!(c.get_domain(), "gitlab.example.com");
    assert_eq!(c.project, Some("42".to_string()));
    assert_eq!(c.api_key, Some("abc123".to_string()));
    assert!(c.has_useful_branch_names());
    let call = c.open_requests_call().unwrap();
    assert_eq!(call.url, "https://gitlab.example.com/api/v4/projects/42/merge_requests?state=opened");
    assert_eq!(call.auth_header, "PRIVATE-TOKEN");
    assert_eq!(call.auth_value, "abc123");
}

#[test]
fn github_client_from_url() {
    let c = github_client();
    assert_eq!(c.provider, Provider::GitHub);
    assert_eq!(c.get_domain(), "github.com");
    assert_eq!(c.project, Some("owner/repo".to_string()));
    assert!(!c.has_useful_branch_names());
    let call = c.open_requests_call().unwrap();
    assert_eq!(call.url, "https://api.github.com/repos/owner/repo/pulls?state=open");
    assert_eq!(call.auth_header, "Authorization");
    assert_eq!(call.auth_value, "token tok");
}

#[test]
fn api_call_needs_key_and_project() {
    let c = get_remote("origin", GITLAB_URL, &gitlab_store(), false).unwrap();
    assert_eq!(c.open_requests_call().err(), Some(ReqError::AuthenticationMissingOrInvalid));
    let mut store = ConfigStore::new();
    set_domain_key(&mut store, "origin", GITLAB_URL, "abc123").unwrap();
    let c = get_remote("origin", GITLAB_URL, &store, true).unwrap();
    assert_eq!(c.project, None);
    assert_eq!(c.open_requests_call().err(), Some(ReqError::ProjectNotConfigured));
}

#[test]
fn http_status_classes() {
    assert_eq!(response_status(200), Ok(()));
    assert_eq!(response_status(204), Ok(()));
    assert_eq!(response_status(401), Err(ReqError::AuthenticationMissingOrInvalid));
    assert_eq!(response_status(403), Err(ReqError::AuthenticationMissingOrInvalid));
    assert_eq!(response_status(404), Err(ReqError::ApiError(404)));
    assert_eq!(response_status(500), Err(ReqError::ApiError(500)));
}

#[test]
fn missing_request_is_not_found() {
    let reqs = vec![request(7, "feature/login", "Login"), request(8, "fix", "Fix")];
    for c in [gitlab_client(), github_client()] {
        assert_eq!(c.get_remote_req_branch(&reqs, 9), Err(ReqError::RequestNotFound));
        assert_eq!(c.get_local_req_branch(&reqs, 9), Err(ReqError::RequestNotFound));
        assert_eq!(c.get_remote_req_branch(&vec![], 7), Err(ReqError::RequestNotFound));
    }
}

#[test]
fn branch_names_per_provider() {
    let reqs = vec![request(7, "feature/login", "Login"), request(7, "second", "Dup")];
    let gl = gitlab_client();
    assert_eq!(gl.get_remote_req_branch(&reqs, 7), Ok("feature/login".to_string()));
    assert_eq!(gl.get_local_req_branch(&reqs, 7), gl.get_remote_req_branch(&reqs, 7));
    let gh = github_client();
    assert_eq!(gh.get_remote_req_branch(&reqs, 7), Ok("pull/7/head".to_string()));
    assert_eq!(gh.get_local_req_branch(&reqs, 7), Ok("pr/7".to_string()));
    let other = vec![request(7, "elsewhere", "Other")];
    assert_eq!(gh.get_local_req_branch(&other, 7), gh.get_local_req_branch(&reqs, 7));
}

#[test]
fn checkout_of_existing_request() {
    let c = gitlab_client();
    let reqs = vec![request(3, "other", "Other"), request(7, "feature/login", "Login")];
    let r = plan_checkout(&c, &reqs, 7);
    assert_eq!(exit_status(&r), 0);
    let plan = r.unwrap();
    assert_eq!(plan.remote_name, "origin");
    assert_eq!(plan.remote_branch, "feature/login");
    assert_eq!(plan.local_branch, "feature/login");
    assert_eq!(plan.upstream(), "origin/feature/login");
}

#[test]
fn checkout_of_missing_request() {
    let c = gitlab_client();
    let reqs = vec![request(7, "feature/login", "Login")];
    let r = plan_checkout(&c, &reqs, 999);
    assert_eq!(r.as_ref().err(), Some(&ReqError::RequestNotFound));
    assert_eq!(exit_status(&r), 1);
}

#[test]
fn github_checkout_plan() {
    let plan = plan_checkout(&github_client(), &vec![request(12, "x", "T")], 12).unwrap();
    assert_eq!(plan.remote_branch, "pull/12/head");
    assert_eq!(plan.local_branch, "pr/12");
    assert_eq!(plan.upstream(), "origin/pull/12/head");
}

#[test]
fn table_before_alignment() {
    let reqs = vec![request(7, "feature/login", "Login"), request(12, "fix", "Fix it")];
    assert_eq!(request_table(true, &reqs), "7\tfeature/login\tLogin\n12\tfix\tFix it\n");
    assert_eq!(request_table(false, &reqs), "7\tLogin\n12\tFix it\n");
    assert_eq!(request_table(false, &vec![]), "");
}

#[test]
fn listing_with_opaque_branch_names() {
    let reqs = vec![request(7, "pull/7/head", "Fix bug"), request(12, "pull/12/head", "Add thing")];
    let out = list_open_requests(&github_client(), &reqs);
    assert_eq!(String::from_utf8(out).unwrap(), "7     Fix bug\n12    Add thing\n");
}

#[test]
fn listing_with_useful_branch_names() {
    let reqs = vec![request(7, "feature/login", "Login"), request(12, "fix", "Fix it")];
    let out = list_open_requests(&gitlab_client(), &reqs);
    assert_eq!(
        String::from_utf8(out).unwrap(),
        "7     feature/login    Login\n12    fix              Fix it\n"
    );
    assert!(list_open_requests(&gitlab_client(), &vec![]).is_empty());
}

#[test]
fn checkout_refs() {
    let reqs = vec![request(7, "feature/login", "Login")];
    let plan = plan_checkout(&gitlab_client(), &reqs, 7).unwrap();
    assert_eq!(plan.source_ref, "refs/heads/feature/login");
    assert_eq!(plan.tracking_ref(), "refs/remotes/origin/feature/login");
    assert_eq!(plan.fetch_refspec(), "+refs/heads/feature/login:refs/remotes/origin/feature/login");
    let plan = plan_checkout(&github_client(), &reqs, 7).unwrap();
    assert_eq!(plan.source_ref, "refs/pull/7/head");
    assert_eq!(plan.fetch_refspec(), "+refs/pull/7/head:refs/remotes/origin/pull/7/head");
}
