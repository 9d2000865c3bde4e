//! Analytics for a web page: which arm of an A/B experiment a visitor gets,
//! what an event carries and how its request reads, and when an event that
//! waits for a condition is due.

pub mod event;
pub mod experiments;
pub mod gate;
pub mod props;
pub mod tracking;
pub mod value;
pub mod wire;

pub use event::{
    EventBuilder, EventName, OutboundRequest, PageContext, Plausible, PlausibleHeader,
    PlausiblePayload, RevenueValue,
};
pub use experiments::{Experiment, ExperimentCtx, ExperimentError, Resolution, Variant};
pub use gate::TriggerGate;
pub use props::Props;
pub use tracking::{
    active_element_event, end_page_event, link_click_actions, page_view_event, strip_prefix,
    track_element_event, tracked_id, LinkAction,
};
pub use value::PropValue;
pub use wire::BodyPart;
