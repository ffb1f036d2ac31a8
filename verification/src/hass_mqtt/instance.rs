//! What an entity asks the transport to write.

use crate::hass_mqtt::binary_sensor::{BinarySensorConfig, BinarySensorConfigView};
use crate::service::state::StateStore;
use vstd::prelude::*;

verus! {

/// One write to the transport: a descriptor on a discovery topic, or a state
/// token on a state topic. The descriptor is handed over as a value; turning
/// it into bytes is the sender's part.
#[derive(Debug, PartialEq, Eq)]
pub enum Publication {
    Config { topic: String, config: BinarySensorConfig },
    State { topic: String, payload: String },
}

/// The mathematical model of a [`Publication`].
pub enum PublicationView {
    Config { topic: Seq<char>, config: BinarySensorConfigView },
    State { topic: Seq<char>, payload: Seq<char> },
}

impl View for Publication {
    type V = PublicationView;

    open spec fn view(&self) -> PublicationView {
        match self {
            Publication::Config { topic, config } => PublicationView::Config {
                topic: topic@,
                config: config@,
            },
            Publication::State { topic, payload } => PublicationView::State {
                topic: topic@,
                payload: payload@,
            },
        }
    }
}

impl PublicationView {
    /// The topic that the publication is written to.
    pub open spec fn topic(self) -> Seq<char> {
        match self {
            PublicationView::Config { topic, .. } => topic,
            PublicationView::State { topic, .. } => topic,
        }
    }
}

impl Publication {
    /// The topic that the publication is written to.
    pub fn topic(&self) -> (topic: &str)
        ensures
            topic@ == self@.topic(),
    {
        match self {
            Publication::Config { topic, .. } => topic.as_str(),
            Publication::State { topic, .. } => topic.as_str(),
        }
    }
}

/// The models of a list of publications, in order.
pub open spec fn publication_views(publications: Seq<Publication>) -> Seq<PublicationView> {
    Seq::new(publications.len(), |i: int| publications[i]@)
}

/// The model of an optional publication.
pub open spec fn option_publication_view(publication: Option<Publication>) -> Option<
    PublicationView,
> {
    match publication {
        Some(publication) => Some(publication@),
        None => None,
    }
}

/// The discovery topic of the entity `unique_id` of family `integration`,
/// for a hub that listens under `disco_prefix`.
pub open spec fn config_topic_text(
    disco_prefix: Seq<char>,
    integration: Seq<char>,
    unique_id: Seq<char>,
) -> Seq<char> {
    disco_prefix + "/"@ + integration + "/"@ + unique_id + "/config"@
}

/// The publication that announces `config` to the hub as an entity of family
/// `integration`.
pub fn publish_entity_config(
    integration: &str,
    state: &StateStore,
    config: &BinarySensorConfig,
) -> (publication: Publication)
    ensures
        publication@ == (PublicationView::Config {
            topic: config_topic_text(
                state@.hass_disco_prefix,
                integration@,
                config@.base.unique_id,
            ),
            config: config@,
        }),
{
    let mut topic = String::from_str(state.get_hass_disco_prefix());
    topic.append("/");
    topic.append(integration);
    topic.append("/");
    topic.append(config.base.unique_id.as_str());
    topic.append("/config");
    Publication::Config { topic, config: config.clone() }
}

} // verus!
