use rocketmq_broker::attributes::{alter_current_attributes, topic_attributes_all, AttributeError};
use rocketmq_broker::broker_config::BrokerConfig;
use rocketmq_broker::commands::{CommonArgs, DeleteKvConfigCommand, WipeWritePermSubCommand};
use rocketmq_broker::data_version::DataVersion;
use rocketmq_broker::perm::{is_inherited, is_readable, is_writeable, PERM_INHERIT, PERM_READ, PERM_WRITE};
use rocketmq_broker::system_topics::{
    AUTO_CREATE_TOPIC_KEY_TOPIC, RMQ_SYS_BENCHMARK_TOPIC, RMQ_SYS_OFFSET_MOVED_EVENT,
    RMQ_SYS_SCHEDULE_TOPIC, RMQ_SYS_SELF_TEST_TOPIC, RMQ_SYS_TRANS_CHECK_MAX_TIME_TOPIC,
    RMQ_SYS_TRANS_HALF_TOPIC, RMQ_SYS_TRANS_OP_HALF_TOPIC, TIMER_TOPIC,
};
use rocketmq_broker::topic_config::{TopicConfig, TopicFilterType};
use rocketmq_broker::topic_config_manager::{TopicConfigManager, TopicConfigSerializeWrapper};

fn broker_config(auto_create: bool, trace: bool) -> BrokerConfig {
    BrokerConfig {
        broker_cluster_name: "DefaultCluster".to_string(),
        broker_name: "broker-a".to_string(),
        auto_create_topic_enable: auto_create,
        default_topic_queue_nums: 8,
        cluster_topic_enable: true,
        broker_topic_enable: true,
        trace_topic_enable: trace,
        msg_trace_topic_name: "RMQ_SYS_TRACE_TOPIC".to_string(),
        revive_queue_num: 8,
        timer_wheel_enable: false,
        enable_split_registration: false,
        enable_single_topic_register: false,
        store_path_root_dir: "/home/store".to_string(),
    }
}

fn attrs(pairs: &[(&str, &str)]) -> Vec<(String, String)> {
    pairs.iter().map(|(k, v)| (k.to_string(), v.to_string())).collect()
}

#[test]
fn bootstrap_without_auto_create_or_trace() {
    let m = TopicConfigManager::new(broker_config(false, false), true, 100);
    for t in [
        RMQ_SYS_SELF_TEST_TOPIC,
        RMQ_SYS_BENCHMARK_TOPIC,
        "DefaultCluster",
        "broker-a",
        RMQ_SYS_OFFSET_MOVED_EVENT,
        RMQ_SYS_SCHEDULE_TOPIC,
        RMQ_SYS_TRANS_HALF_TOPIC,
        RMQ_SYS_TRANS_OP_HALF_TOPIC,
        RMQ_SYS_TRANS_CHECK_MAX_TIME_TOPIC,
        "broker-a_REPLY_TOPIC",
        "rmq_sys_REVIVE_LOG_DefaultCluster",
        "SYNC_BROKER_MEMBER__broker-a",
    ] {
        assert!(m.contains_topic(t), "{t} missing");
    }
    assert!(!m.contains_topic(AUTO_CREATE_TOPIC_KEY_TOPIC));
    assert!(!m.contains_topic("RMQ_SYS_TRACE_TOPIC"));
    assert!(!m.contains_topic(TIMER_TOPIC));
    assert_eq!(m.topic_config_table().len(), 12);
    assert_eq!(m.data_version().counter, 0);
    assert_eq!(m.data_version().timestamp, 100);
}

#[test]
fn bootstrap_with_every_flag() {
    let mut cfg = broker_config(true, true);
    cfg.timer_wheel_enable = true;
    cfg.cluster_topic_enable = false;
    let m = TopicConfigManager::new(cfg, true, 0);
    let tbw = m.select_topic_config(AUTO_CREATE_TOPIC_KEY_TOPIC).unwrap();
    assert_eq!(tbw.write_queue_nums, 8);
    assert_eq!(tbw.read_queue_nums, 8);
    assert_eq!(tbw.perm, PERM_INHERIT | PERM_READ | PERM_WRITE);
    assert!(m.contains_topic("RMQ_SYS_TRACE_TOPIC"));
    assert!(m.contains_topic(TIMER_TOPIC));
    assert_eq!(m.select_topic_config("DefaultCluster").unwrap().perm, PERM_INHERIT);
    assert_eq!(m.select_topic_config("broker-a").unwrap().perm, 7);
    assert_eq!(m.select_topic_config(RMQ_SYS_SCHEDULE_TOPIC).unwrap().read_queue_nums, 18);
    assert_eq!(m.select_topic_config(RMQ_SYS_BENCHMARK_TOPIC).unwrap().write_queue_nums, 1024);
    assert_eq!(m.select_topic_config("SYNC_BROKER_MEMBER__broker-a").unwrap().perm, PERM_INHERIT);
    assert_eq!(m.topic_config_table().len(), 15);
}

#[test]
fn no_bootstrap_gives_empty_table() {
    let m = TopicConfigManager::new(broker_config(true, true), false, 0);
    assert!(m.topic_config_table().is_empty());
}

#[test]
fn auto_create_floors_queue_count_to_template() {
    let mut m = TopicConfigManager::new(broker_config(true, false), true, 0);
    let r = m
        .create_topic_in_send_message_method("orders", AUTO_CREATE_TOPIC_KEY_TOPIC, 16, 0, true, 42, 1000)
        .unwrap();
    assert_eq!(r.write_queue_nums, 8);
    assert_eq!(r.read_queue_nums, 8);
    assert_eq!(r.perm, PERM_READ | PERM_WRITE);
    assert!(!is_inherited(r.perm));
    assert_eq!(m.select_topic_config("orders"), Some(r.clone()));
    let v = m.data_version();
    assert_eq!((v.counter, v.state_version, v.timestamp), (1, 42, 1000));
    let regs = m.take_pending_registrations();
    assert_eq!(regs.len(), 1);
    assert_eq!(regs[0].topic_config, r);
    assert_eq!(regs[0].data_version, v);
    assert!(!regs[0].single_topic);
    assert!(m.take_pending_registrations().is_empty());
}

#[test]
fn auto_create_keeps_smaller_request_and_floors_at_zero() {
    let mut m = TopicConfigManager::new(broker_config(true, false), true, 0);
    let r = m
        .create_topic_in_send_message_method("small", AUTO_CREATE_TOPIC_KEY_TOPIC, 3, 5, true, 0, 0)
        .unwrap();
    assert_eq!(r.write_queue_nums, 3);
    assert_eq!(r.topic_sys_flag, 5);
    assert_eq!(r.topic_filter_type, TopicFilterType::SingleTag);
    let r = m
        .create_topic_in_send_message_method("neg", AUTO_CREATE_TOPIC_KEY_TOPIC, -5, 0, true, 0, 0)
        .unwrap();
    assert_eq!(r.write_queue_nums, 0);
    assert_eq!(r.read_queue_nums, 0);
    assert_eq!(m.data_version().counter, 2);
}

#[test]
fn auto_create_disabled_downgrades_template() {
    let mut m = TopicConfigManager::new(broker_config(false, false), true, 0);
    m.put_topic_config(TopicConfig::with_perm(AUTO_CREATE_TOPIC_KEY_TOPIC, 8, 8, 7));
    let r = m.create_topic_in_send_message_method("orders", AUTO_CREATE_TOPIC_KEY_TOPIC, 16, 0, true, 0, 0);
    assert!(r.is_none());
    assert!(!m.contains_topic("orders"));
    assert_eq!(m.data_version().counter, 0);
    assert!(m.take_pending_registrations().is_empty());
}

#[test]
fn auto_create_from_other_inheritable_template_when_disabled() {
    let mut m = TopicConfigManager::new(broker_config(false, false), false, 0);
    let mut t = TopicConfig::with_perm("tmpl", 4, 4, 7);
    t.topic_filter_type = TopicFilterType::MultiTag;
    m.put_topic_config(t);
    let r = m.create_topic_in_send_message_method("x", "tmpl", 16, 0, true, 0, 0).unwrap();
    assert_eq!(r.write_queue_nums, 4);
    assert_eq!(r.topic_filter_type, TopicFilterType::MultiTag);
}

#[test]
fn auto_create_fails_without_template_perm_or_lock() {
    let mut m = TopicConfigManager::new(broker_config(true, false), true, 0);
    assert!(m.create_topic_in_send_message_method("a", "missing", 4, 0, true, 0, 0).is_none());
    m.put_topic_config(TopicConfig::with_perm("closed", 4, 4, PERM_READ | PERM_WRITE));
    assert!(m.create_topic_in_send_message_method("a", "closed", 4, 0, true, 0, 0).is_none());
    assert!(m
        .create_topic_in_send_message_method("a", AUTO_CREATE_TOPIC_KEY_TOPIC, 4, 0, false, 0, 0)
        .is_none());
    assert!(!m.contains_topic("a"));
    assert_eq!(m.data_version().counter, 0);
}

#[test]
fn auto_create_twice_inserts_once() {
    let mut m = TopicConfigManager::new(broker_config(true, false), true, 0);
    let first = m
        .create_topic_in_send_message_method("orders", AUTO_CREATE_TOPIC_KEY_TOPIC, 4, 0, true, 1, 1)
        .unwrap();
    let size = m.topic_config_table().len();
    for lock in [true, false, true] {
        let again = m
            .create_topic_in_send_message_method("orders", AUTO_CREATE_TOPIC_KEY_TOPIC, 2, 9, lock, 7, 7)
            .unwrap();
        assert_eq!(again, first);
    }
    assert_eq!(m.topic_config_table().len(), size);
    assert_eq!(m.data_version().counter, 1);
    assert_eq!(m.take_pending_registrations().len(), 1);
}

#[test]
fn single_topic_registration_follows_setting() {
    let mut cfg = broker_config(true, false);
    cfg.enable_single_topic_register = true;
    let mut m = TopicConfigManager::new(cfg, true, 0);
    m.create_topic_in_send_message_method("orders", AUTO_CREATE_TOPIC_KEY_TOPIC, 4, 0, true, 0, 0);
    let regs = m.take_pending_registrations();
    assert!(regs[0].single_topic);
}

#[test]
fn delete_existing_topic_advances_version() {
    let mut m = TopicConfigManager::new(broker_config(false, false), true, 0);
    m.delete_topic_config(RMQ_SYS_BENCHMARK_TOPIC, 3, 50);
    assert!(!m.contains_topic(RMQ_SYS_BENCHMARK_TOPIC));
    assert_eq!(m.data_version(), DataVersion { state_version: 3, timestamp: 50, counter: 1 });
}

#[test]
fn delete_nonexistent_topic_changes_nothing() {
    let mut m = TopicConfigManager::new(broker_config(false, false), true, 0);
    let before = m.topic_config_table();
    let v = m.data_version();
    m.delete_topic_config("nope", 3, 50);
    assert_eq!(m.topic_config_table(), before);
    assert_eq!(m.data_version(), v);
}

#[test]
fn remove_returns_old_entry() {
    let mut m = TopicConfigManager::new(broker_config(false, false), false, 0);
    let c = TopicConfig::with_queues("t", 2, 3);
    assert!(m.put_topic_config(c.clone()).is_none());
    let c2 = TopicConfig::with_queues("t", 4, 4);
    assert_eq!(m.put_topic_config(c2.clone()), Some(c));
    assert_eq!(m.remove_topic_config("t"), Some(c2));
    assert_eq!(m.remove_topic_config("t"), None);
    assert_eq!(m.data_version().counter, 0);
}

#[test]
fn update_reconciles_attributes() {
    let mut m = TopicConfigManager::new(broker_config(false, false), false, 0);
    let mut c = TopicConfig::with_queues("t", 2, 2);
    c.attributes = attrs(&[("+message.type", "FIFO"), ("+queue.type", "BatchCQ")]);
    m.update_topic_config(&mut c, 5, 9);
    let stored = m.select_topic_config("t").unwrap();
    assert_eq!(stored, c);
    let mut got = stored.attributes.clone();
    got.sort();
    assert_eq!(got, attrs(&[("message.type", "FIFO"), ("queue.type", "BatchCQ")]));
    assert_eq!(m.data_version(), DataVersion { state_version: 5, timestamp: 9, counter: 1 });

    let mut c = TopicConfig::with_queues("t", 2, 2);
    c.attributes = attrs(&[("+message.type", "DELAY")]);
    m.update_topic_config(&mut c, 5, 10);
    let mut got = m.select_topic_config("t").unwrap().attributes;
    got.sort();
    assert_eq!(got, attrs(&[("message.type", "DELAY"), ("queue.type", "BatchCQ")]));

    let mut c = TopicConfig::with_queues("t", 2, 2);
    c.attributes = attrs(&[("-message.type", "")]);
    m.update_topic_config(&mut c, 5, 11);
    assert_eq!(m.select_topic_config("t").unwrap().attributes, attrs(&[("queue.type", "BatchCQ")]));
    assert_eq!(m.data_version().counter, 3);
}

#[test]
fn update_with_invalid_attributes_drops_them() {
    let mut m = TopicConfigManager::new(broker_config(false, false), false, 0);
    let mut c = TopicConfig::with_queues("t", 2, 2);
    c.attributes = attrs(&[("+unknown", "x")]);
    m.update_topic_config(&mut c, 0, 0);
    assert!(c.attributes.is_empty());
    assert!(m.select_topic_config("t").unwrap().attributes.is_empty());
    assert_eq!(m.data_version().counter, 1);
}

#[test]
fn update_list_updates_each() {
    let mut m = TopicConfigManager::new(broker_config(false, false), false, 0);
    let mut list = vec![TopicConfig::with_queues("a", 1, 1), TopicConfig::with_queues("b", 2, 2)];
    m.update_topic_config_list(&mut list, 4, 4);
    assert_eq!(m.select_topic_config("a").unwrap().read_queue_nums, 1);
    assert_eq!(m.select_topic_config("b").unwrap().read_queue_nums, 2);
    assert_eq!(m.data_version().counter, 2);
}

#[test]
fn send_back_creates_or_corrects_order() {
    let mut m = TopicConfigManager::new(broker_config(false, false), false, 0);
    assert!(m.create_topic_in_send_message_back_method("%RETRY%g", 1, 6, false, 0, false, 0, 0).is_none());
    let r = m
        .create_topic_in_send_message_back_method("%RETRY%g", 1, 6, false, 3, true, 0, 0)
        .unwrap();
    assert_eq!((r.read_queue_nums, r.write_queue_nums, r.perm, r.topic_sys_flag, r.order), (1, 1, 6, 3, false));
    assert_eq!(m.data_version().counter, 1);
    assert_eq!(m.take_pending_registrations().len(), 1);
    let same = m
        .create_topic_in_send_message_back_method("%RETRY%g", 9, 2, false, 0, false, 0, 0)
        .unwrap();
    assert_eq!(same, r);
    assert_eq!(m.data_version().counter, 1);
    let ordered = m
        .create_topic_in_send_message_back_method("%RETRY%g", 9, 2, true, 0, false, 0, 0)
        .unwrap();
    assert!(ordered.order);
    assert!(m.is_order_topic("%RETRY%g"));
    assert_eq!(m.data_version().counter, 2);
    assert!(m.take_pending_registrations().is_empty());
}

#[test]
fn tran_check_topic_made_once() {
    let mut m = TopicConfigManager::new(broker_config(false, false), false, 0);
    let r = m.create_topic_of_tran_check_max_time(1, 6, true, 0, 0).unwrap();
    assert_eq!(r.topic_name, RMQ_SYS_TRANS_CHECK_MAX_TIME_TOPIC);
    assert_eq!((r.read_queue_nums, r.perm, r.topic_sys_flag), (1, 6, 0));
    let again = m.create_topic_of_tran_check_max_time(4, 2, false, 0, 0).unwrap();
    assert_eq!(again, r);
    assert_eq!(m.data_version().counter, 1);
}

#[test]
fn snapshot_round_trip() {
    let mut m = TopicConfigManager::new(broker_config(true, false), true, 7);
    m.create_topic_in_send_message_method("orders", AUTO_CREATE_TOPIC_KEY_TOPIC, 4, 0, true, 11, 12);
    let w = m.topic_config_serialize_wrapper();
    let mut fresh = TopicConfigManager::new(broker_config(true, false), false, 0);
    fresh.decode_serialize_wrapper(w);
    let mut a = fresh.topic_config_table();
    let mut b = m.topic_config_table();
    a.sort_by(|x, y| x.topic_name.cmp(&y.topic_name));
    b.sort_by(|x, y| x.topic_name.cmp(&y.topic_name));
    assert_eq!(a, b);
    assert_eq!(fresh.data_version(), m.data_version());
}

#[test]
fn decode_empty_wrapper_changes_nothing() {
    let mut m = TopicConfigManager::new(broker_config(false, false), true, 7);
    let before = m.topic_config_table();
    m.decode_serialize_wrapper(TopicConfigSerializeWrapper { topic_config_table: None, data_version: None });
    assert_eq!(m.topic_config_table(), before);
    assert_eq!(m.data_version().timestamp, 7);
}

#[test]
fn split_registration_advances_version() {
    let mut cfg = broker_config(false, false);
    cfg.enable_split_registration = true;
    let mut m = TopicConfigManager::new(cfg, false, 0);
    let w = m.build_serialize_wrapper(vec![], 77);
    assert_eq!(w.data_version, Some(DataVersion { state_version: 0, timestamp: 77, counter: 1 }));
    let mut m = TopicConfigManager::new(broker_config(false, false), false, 0);
    let w = m.build_serialize_wrapper(vec![], 77);
    assert_eq!(w.data_version, Some(DataVersion { state_version: 0, timestamp: 0, counter: 0 }));
}

#[test]
fn set_table_replaces_entries() {
    let mut m = TopicConfigManager::new(broker_config(false, false), true, 0);
    m.set_topic_config_table(vec![TopicConfig::new("a"), TopicConfig::with_queues("a", 2, 2)]);
    let t = m.topic_config_table();
    assert_eq!(t.len(), 1);
    assert_eq!(t[0].read_queue_nums, 2);
}

#[test]
fn config_file_path_under_root() {
    let m = TopicConfigManager::new(broker_config(false, false), false, 0);
    assert_eq!(m.config_file_path(), "/home/store/config/topics.json");
}

#[test]
fn topic_config_defaults() {
    let c = TopicConfig::new("t");
    assert_eq!((c.read_queue_nums, c.write_queue_nums, c.perm), (16, 16, 6));
    assert!(!c.order);
    assert_eq!(c.topic_sys_flag, 0);
}

#[test]
fn data_version_steps() {
    let mut v = DataVersion::new(5);
    v.next_version_with(9, 6);
    assert_eq!(v, DataVersion { state_version: 9, timestamp: 6, counter: 1 });
    v.next_version(8);
    assert_eq!(v, DataVersion { state_version: 9, timestamp: 8, counter: 2 });
    let mut w = DataVersion::new(0);
    w.assign_new_one(&v);
    assert_eq!(w, v);
}

#[test]
fn perm_bits() {
    assert!(is_inherited(7));
    assert!(!is_inherited(6));
    assert!(is_readable(PERM_READ));
    assert!(is_writeable(PERM_WRITE));
    assert!(!is_writeable(PERM_READ | PERM_INHERIT));
}

#[test]
fn attributes_create_only_adds() {
    let all = topic_attributes_all();
    let r = alter_current_attributes(true, &all, &attrs(&[("-queue.type", "")]), &vec![]);
    assert_eq!(r, Err(AttributeError::OnlyAddWhileCreating));
    let r = alter_current_attributes(true, &all, &attrs(&[("+queue.type", "SimpleCQ")]), &vec![]);
    assert_eq!(r, Ok(attrs(&[("queue.type", "SimpleCQ")])));
}

#[test]
fn attributes_errors() {
    let all = topic_attributes_all();
    let cur = attrs(&[("queue.type", "SimpleCQ")]);
    let e = |req: &[(&str, &str)]| alter_current_attributes(false, &all, &attrs(req), &cur).unwrap_err();
    assert_eq!(e(&[("queue.type", "BatchCQ")]), AttributeError::WrongFormatKey);
    assert_eq!(e(&[("+nope", "x")]), AttributeError::UnsupportedKey);
    assert_eq!(e(&[("+message.type", "FIFO"), ("-message.type", "")]), AttributeError::DuplicateKey);
    assert_eq!(e(&[("-message.type", "")]), AttributeError::DeleteNonexistentKey);
    assert_eq!(e(&[("+queue.type", "BatchCQ")]), AttributeError::UnchangeableAttribute);
    assert_eq!(e(&[("+message.type", "fifo")]), AttributeError::InvalidValue);
}

#[test]
fn attributes_add_change_delete() {
    let all = topic_attributes_all();
    let cur = attrs(&[("queue.type", "SimpleCQ"), ("message.type", "NORMAL")]);
    let r = alter_current_attributes(false, &all, &attrs(&[("+message.type", "FIFO")]), &cur).unwrap();
    assert_eq!(r, attrs(&[("queue.type", "SimpleCQ"), ("message.type", "FIFO")]));
    let r = alter_current_attributes(false, &all, &attrs(&[("-message.type", "")]), &cur).unwrap();
    assert_eq!(r, attrs(&[("queue.type", "SimpleCQ")]));
    let r = alter_current_attributes(false, &all, &vec![], &cur).unwrap();
    assert_eq!(r, cur);
}

#[test]
fn commands_hold_their_arguments() {
    let d = DeleteKvConfigCommand::new("ns".to_string(), "k".to_string());
    assert_eq!(d.get_namespace(), "ns");
    assert_eq!(d.get_key(), "k");
    let w = WipeWritePermSubCommand::new(CommonArgs { namesrv_addr: None }, "  broker-a \t".to_string());
    assert_eq!(w.target_broker_name(), "broker-a");
    assert!(w.get_common_args().namesrv_addr.is_none());
}
