//! The broker settings that the topic registry reads.
use vstd::prelude::*;

verus! {

pub struct BrokerConfig {
    pub broker_cluster_name: String,
    pub broker_name: String,
    /// Whether producers may create topics from the auto-create template.
    pub auto_create_topic_enable: bool,
    /// Queue count of the auto-create template.
    pub default_topic_queue_nums: u32,
    pub cluster_topic_enable: bool,
    pub broker_topic_enable: bool,
    pub trace_topic_enable: bool,
    pub msg_trace_topic_name: String,
    pub revive_queue_num: u32,
    /// Whether the message store runs the timer wheel, which needs its own topic.
    pub timer_wheel_enable: bool,
    /// Whether each serialisation wrapper advances the data version.
    pub enable_split_registration: bool,
    /// Whether a new topic is registered alone rather than as an increment.
    pub enable_single_topic_register: bool,
    pub store_path_root_dir: String,
}

} // verus!
