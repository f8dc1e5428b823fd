//! The kinds of project, the choices a project can make, and the modules that
//! follow from them.

use vstd::prelude::*;

verus! {

/// The kind of project that is generated.
#[derive(Debug, Clone, Copy, PartialEq, Eq, Structural)]
pub enum ProjectType {
    Service,
    Cli,
    Lib,
    Sample,
}

/// Where a project keeps its data.
#[derive(Debug, Clone, Copy, PartialEq, Eq, Structural)]
pub enum PersistenceType {
    Postgres,
    Sqlite,
    File,
}

/// The kind of web frontend that a project has.
#[derive(Debug, Clone, Copy, PartialEq, Eq, Structural)]
pub enum FrontendType {
    /// A single-page application, served as static files.
    Spa,
    /// A server-side rendered application.
    Ssr,
}

/// A unit of a generated project: one directory under `crates/`.
#[derive(Debug, Clone, Copy, PartialEq, Eq, Structural)]
pub enum Module {
    Core,
    Api,
    Runtime,
    Cli,
    Client,
    Persistence,
}

/// Everything that decides what a generated project holds.
#[derive(Debug, Clone)]
pub struct ProjectConfig {
    pub name: String,
    pub project_type: ProjectType,
    pub persistence: Option<PersistenceType>,
    pub frontend: Option<FrontendType>,
    pub has_grpc: bool,
    pub has_http: bool,
    pub has_client: bool,
    pub author_name: String,
    pub author_email: String,
}

/// A [`ProjectConfig`] with its strings as sequences of characters.
pub struct ConfigView {
    pub name: Seq<char>,
    pub project_type: ProjectType,
    pub persistence: Option<PersistenceType>,
    pub frontend: Option<FrontendType>,
    pub has_grpc: bool,
    pub has_http: bool,
    pub has_client: bool,
    pub author_name: Seq<char>,
    pub author_email: Seq<char>,
}

impl View for ProjectConfig {
    type V = ConfigView;

    open spec fn view(&self) -> ConfigView {
        ConfigView {
            name: self.name@,
            project_type: self.project_type,
            persistence: self.persistence,
            frontend: self.frontend,
            has_grpc: self.has_grpc,
            has_http: self.has_http,
            has_client: self.has_client,
            author_name: self.author_name@,
            author_email: self.author_email@,
        }
    }
}

/// The modules of a project, in the order in which they are generated: a
/// function of the project's type, of whether it keeps data, and of whether it
/// has a client.
pub open spec fn modules_of(
    project_type: ProjectType,
    persistent: bool,
    has_client: bool,
) -> Seq<Module> {
    match project_type {
        ProjectType::Service => seq![Module::Core, Module::Api, Module::Runtime, Module::Cli] + (
        if persistent {
            seq![Module::Persistence]
        } else {
            seq![]
        }),
        ProjectType::Cli => seq![Module::Core, Module::Cli] + (if has_client {
            seq![Module::Client]
        } else {
            seq![]
        }) + (if persistent {
            seq![Module::Persistence]
        } else {
            seq![]
        }),
        ProjectType::Lib => seq![Module::Core] + (if persistent {
            seq![Module::Persistence]
        } else {
            seq![]
        }),
        ProjectType::Sample => seq![
            Module::Core,
            Module::Api,
            Module::Runtime,
            Module::Cli,
            Module::Persistence,
        ],
    }
}

impl ConfigView {
    /// The modules of a project with this configuration.
    pub open spec fn modules(self) -> Seq<Module> {
        modules_of(self.project_type, self.persistence is Some, self.has_client)
    }
}

/// What holds of the modules of every configuration: `Core` is always among
/// them; `Api`, `Runtime` and `Cli` are all there exactly for a service or a
/// sample; `Client` exactly for a command-line project with a client;
/// `Persistence` exactly where the project keeps data or is a sample. A
/// library that keeps no data has `Core` alone. No module is there twice.
pub proof fn lemma_module_set(project_type: ProjectType, persistent: bool, has_client: bool)
    ensures
        ({
            let m = modules_of(project_type, persistent, has_client);
            &&& m.contains(Module::Core)
            &&& (m.contains(Module::Api) && m.contains(Module::Runtime) && m.contains(Module::Cli))
                <==> (project_type == ProjectType::Service || project_type == ProjectType::Sample)
            &&& m.contains(Module::Api) <==> (project_type == ProjectType::Service || project_type
                == ProjectType::Sample)
            &&& m.contains(Module::Runtime) <==> (project_type == ProjectType::Service
                || project_type == ProjectType::Sample)
            &&& m.contains(Module::Cli) <==> project_type != ProjectType::Lib
            &&& m.contains(Module::Client) <==> (project_type == ProjectType::Cli && has_client)
            &&& m.contains(Module::Persistence) <==> (persistent || project_type
                == ProjectType::Sample)
            &&& (project_type == ProjectType::Lib && !persistent) ==> m == seq![Module::Core]
            &&& m.no_duplicates()
        }),
{
    let m = modules_of(project_type, persistent, has_client);
    assert(m[0] == Module::Core);
    match project_type {
        ProjectType::Service => {
            assert(m[1] == Module::Api);
            assert(m[2] == Module::Runtime);
            assert(m[3] == Module::Cli);
            if persistent {
                assert(m[4] == Module::Persistence);
            }
        },
        ProjectType::Cli => {
            assert(m[1] == Module::Cli);
            if has_client {
                assert(m[2] == Module::Client);
                if persistent {
                    assert(m[3] == Module::Persistence);
                }
            } else {
                if persistent {
                    assert(m[2] == Module::Persistence);
                }
            }
        },
        ProjectType::Lib => {
            if persistent {
                assert(m[1] == Module::Persistence);
            }
        },
        ProjectType::Sample => {
            assert(m[1] == Module::Api);
            assert(m[2] == Module::Runtime);
            assert(m[3] == Module::Cli);
            assert(m[4] == Module::Persistence);
        },
    }
}

impl ProjectConfig {
    /// The modules of this project, in the order in which they are generated.
    pub fn modules(&self) -> (r: Vec<Module>)
        ensures
            r@ == self@.modules(),
            r@.contains(Module::Core),
            r@.contains(Module::Api) && r@.contains(Module::Runtime) && r@.contains(Module::Cli)
                <==> (self.project_type == ProjectType::Service || self.project_type
                == ProjectType::Sample),
            r@.contains(Module::Client) <==> (self.project_type == ProjectType::Cli
                && self.has_client),
            r@.contains(Module::Persistence) <==> (self.persistence is Some || self.project_type
                == ProjectType::Sample),
    {
        let mut modules: Vec<Module> = Vec::new();
        modules.push(Module::Core);
        match self.project_type {
            ProjectType::Service => {
                modules.push(Module::Api);
                modules.push(Module::Runtime);
                modules.push(Module::Cli);
                if self.persistence.is_some() {
                    modules.push(Module::Persistence);
                }
            },
            ProjectType::Cli => {
                modules.push(Module::Cli);
                if self.has_client {
                    modules.push(Module::Client);
                }
                if self.persistence.is_some() {
                    modules.push(Module::Persistence);
                }
            },
            ProjectType::Lib => {
                if self.persistence.is_some() {
                    modules.push(Module::Persistence);
                }
            },
            ProjectType::Sample => {
                modules.push(Module::Api);
                modules.push(Module::Runtime);
                modules.push(Module::Cli);
                modules.push(Module::Persistence);
            },
        }
        proof {
            assert(modules@ =~= self@.modules());
            lemma_module_set(self.project_type, self.persistence is Some, self.has_client);
        }
        modules
    }
}

} // verus!
