//! Coordinator of a single browser-automation session.
//!
//! A host opens one page at a time for a scrape task, with a script
//! installed that taps the page's own network calls. The script reports a
//! captured JSON payload, or an authentication failure, back to the host.
//! This crate holds what the host decides: the text of that script
//! ([`script`]), the rules it follows ([`tap`]), and the controller that
//! delivers one result per task and drives the session surface
//! ([`scraper`]). Every entry point returns the effects for the host to
//! perform; the crate itself touches no window and no channel.

pub mod backend;
pub mod dedup;
pub mod effect;
pub mod escape;
pub mod laws;
pub mod model;
pub mod scraper;
pub mod script;
pub mod tap;
pub mod text;
pub mod url_check;

pub use effect::{Effect, Reply, RevealPlan, ScraperEvent, SurfacePlan, TaskError};
pub use model::Phase;
pub use scraper::{
    cancel_scraper_task, dispatch, handle_scraped_data, handle_scraper_auth, push_scraper_task,
    scraper_log, show_scraper_window, start_task, HostCall, ScraperState, Session,
};
pub use script::{interception_script, ScrapeTask};
