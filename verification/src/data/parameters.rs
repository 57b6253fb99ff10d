//! The parameters that a build of the client is compiled with.

use vstd::prelude::*;

verus! {

/// The parameters of one build of the client.
#[derive(Debug, Clone, PartialEq, Eq)]
pub struct Parameters {
    /// The version of the build: the build version, a dot, the minor version.
    pub version: String,
    /// The port on which servers are reached.
    pub port: u16,
    /// The identifier of the tutorial.
    pub tutorial_gameid: i32,
    /// The identifier of the nexus.
    pub nexus_gameid: i32,
    /// The identifier that stands for a random realm.
    pub random_gameid: i32,
}

/// The model of [`Parameters`].
pub struct ParametersModel {
    pub version: Seq<char>,
    pub port: u16,
    pub tutorial_gameid: i32,
    pub nexus_gameid: i32,
    pub random_gameid: i32,
}

impl DeepView for Parameters {
    type V = ParametersModel;

    open spec fn deep_view(&self) -> ParametersModel {
        ParametersModel {
            version: self.version@,
            port: self.port,
            tutorial_gameid: self.tutorial_gameid,
            nexus_gameid: self.nexus_gameid,
            random_gameid: self.random_gameid,
        }
    }
}

} // verus!
