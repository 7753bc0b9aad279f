//! Supervision of the three local services behind the dashboard: the node
//! daemon, the backend and the frontend.
//!
//! The services run either as containers, started and stopped as one unit,
//! or as child processes of the host, started in order of dependency and
//! stopped in reverse. [`supervisor::Supervisor`] chooses between the two
//! when the application starts and offers one lifecycle over both:
//! [`docker_manager::DockerManager`] supervises the containers,
//! [`process_manager::ProcessManager`] the child processes, and
//! [`layout`] finds the resources they need.
//!
//! Nothing in this library touches the operating system. A supervisor says
//! what is to be done next, as a [`host::Request`]; the host does it and
//! says what came of it, as a [`host::Reply`]. What a supervisor decides is
//! therefore a function of its state and the replies alone, and that
//! function is what the contracts state.

pub mod credential;
pub mod docker_manager;
pub mod error;
pub mod host;
pub mod json;
pub mod layout;
pub mod paths;
pub mod platform;
pub mod process_manager;
pub mod supervisor;
pub mod text;
