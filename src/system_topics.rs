//! Names of the topics that the broker itself needs.
use vstd::prelude::*;

verus! {

pub const RMQ_SYS_SELF_TEST_TOPIC: &'static str = "SELF_TEST_TOPIC";

/// The template from which producers' topics are made when auto-create is on.
pub const AUTO_CREATE_TOPIC_KEY_TOPIC: &'static str = "TBW102";

pub const RMQ_SYS_BENCHMARK_TOPIC: &'static str = "BenchmarkTest";

pub const RMQ_SYS_OFFSET_MOVED_EVENT: &'static str = "OFFSET_MOVED_EVENT";

pub const RMQ_SYS_SCHEDULE_TOPIC: &'static str = "SCHEDULE_TOPIC_XXXX";

pub const RMQ_SYS_TRANS_HALF_TOPIC: &'static str = "RMQ_SYS_TRANS_HALF_TOPIC";

pub const RMQ_SYS_TRANS_OP_HALF_TOPIC: &'static str = "RMQ_SYS_TRANS_OP_HALF_TOPIC";

pub const RMQ_SYS_TRANS_CHECK_MAX_TIME_TOPIC: &'static str = "TRANS_CHECK_MAX_TIME_TOPIC";

pub const SYNC_BROKER_MEMBER_GROUP_PREFIX: &'static str = "SYNC_BROKER_MEMBER_";

pub const REPLY_TOPIC_POSTFIX: &'static str = "REPLY_TOPIC";

pub const REVIVE_TOPIC_PREFIX: &'static str = "rmq_sys_REVIVE_LOG_";

pub const TIMER_TOPIC: &'static str = "rmq_sys_wheel_timer";

pub const SCHEDULE_TOPIC_QUEUE_NUM: u32 = 18;

/// How long an auto-create waits for the creation lock.
pub const CREATION_LOCK_TIMEOUT_MILLIS: u64 = 3000;

} // verus!
