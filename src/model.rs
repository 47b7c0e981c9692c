//! Plain values handed between the caller and the library.
use vstd::prelude::*;

verus! {

/// How the caller asks for the node to be launched. An empty `db_path`
/// stands for the default data directory.
#[derive(Debug, Clone, PartialEq, Eq)]
pub struct NodeConfig {
    pub db_path: String,
    pub api_port: u16,
    pub p2p_port: u16,
}

impl NodeConfig {
    pub fn new(db_path: String, api_port: u16, p2p_port: u16) -> (r: NodeConfig)
        ensures
            r.db_path == db_path,
            r.api_port == api_port,
            r.p2p_port == p2p_port,
    {
        NodeConfig { db_path, api_port, p2p_port }
    }
}

/// One downloadable file of a release.
#[derive(Debug, Clone, PartialEq, Eq)]
pub struct GitHubAsset {
    pub name: String,
    pub browser_download_url: String,
}

/// A release of the release feed: its tag and its files, in feed order.
#[derive(Debug, Clone, PartialEq, Eq)]
pub struct GitHubRelease {
    pub tag_name: String,
    pub assets: Vec<GitHubAsset>,
}

impl GitHubAsset {
    pub fn new(name: String, browser_download_url: String) -> (r: GitHubAsset)
        ensures
            r.name == name,
            r.browser_download_url == browser_download_url,
    {
        GitHubAsset { name, browser_download_url }
    }
}

impl GitHubRelease {
    pub fn new(tag_name: String, assets: Vec<GitHubAsset>) -> (r: GitHubRelease)
        ensures
            r.tag_name == tag_name,
            r.assets == assets,
    {
        GitHubRelease { tag_name, assets }
    }
}

} // verus!
