//! The registry of topic configurations.
use vstd::prelude::*;

use crate::assoc::{
    assoc_view, keys_unique, lemma_dom, lemma_entry, lemma_push, lemma_remove,
    lemma_update,
};
use crate::attributes::{
    alter_current_attributes, apply_request, request_ok, topic_attribute_rules,
    topic_attributes_all,
};
use crate::broker_config::BrokerConfig;
use crate::data_version::DataVersion;
use crate::perm::{
    has_bit, is_inherited, lemma_clear_inherit, PERM_INHERIT, PERM_READ, PERM_WRITE,
};
use crate::system_topics::{
    AUTO_CREATE_TOPIC_KEY_TOPIC, REPLY_TOPIC_POSTFIX, REVIVE_TOPIC_PREFIX, RMQ_SYS_BENCHMARK_TOPIC,
    RMQ_SYS_OFFSET_MOVED_EVENT, RMQ_SYS_SCHEDULE_TOPIC, RMQ_SYS_SELF_TEST_TOPIC,
    RMQ_SYS_TRANS_CHECK_MAX_TIME_TOPIC, RMQ_SYS_TRANS_HALF_TOPIC, RMQ_SYS_TRANS_OP_HALF_TOPIC,
    SCHEDULE_TOPIC_QUEUE_NUM, SYNC_BROKER_MEMBER_GROUP_PREFIX, TIMER_TOPIC,
};
use crate::topic_config::{
    attr_entries, attr_map, clone_attributes, plain_topic, TopicConfig, TopicConfigView,
    TopicFilterType, DEFAULT_QUEUE_NUMS,
};

verus! {

pub open spec fn table_entries(s: Seq<TopicConfig>) -> Seq<(Seq<char>, TopicConfigView)> {
    s.map_values(|c: TopicConfig| (c.topic_name@, c@))
}

/// The map from topic name to configuration that a list of topics stands for.
pub open spec fn table_map(s: Seq<TopicConfig>) -> Map<Seq<char>, TopicConfigView> {
    assoc_view(table_entries(s))
}

/// A changed topic on its way to the naming layer: alone, or as an increment
/// stamped with the data version.
pub struct Registration {
    pub topic_config: TopicConfig,
    pub data_version: DataVersion,
    pub single_topic: bool,
}

pub struct RegistrationView {
    pub topic_config: TopicConfigView,
    pub data_version: DataVersion,
    pub single_topic: bool,
}

impl View for Registration {
    type V = RegistrationView;

    open spec fn view(&self) -> RegistrationView {
        RegistrationView {
            topic_config: self.topic_config@,
            data_version: self.data_version,
            single_topic: self.single_topic,
        }
    }
}

/// The version after a change of the table, folding in the message log's
/// state-machine version.
pub open spec fn advanced(v: DataVersion, state_machine_version: u64, now: u64) -> DataVersion {
    DataVersion {
        state_version: state_machine_version,
        timestamp: now,
        counter: (v.counter + 1) as u64,
    }
}

pub open spec fn views(s: Seq<TopicConfig>) -> Seq<TopicConfigView> {
    s.map_values(|c: TopicConfig| c@)
}

pub open spec fn opt_view(r: Option<TopicConfig>) -> Option<TopicConfigView> {
    match r {
        Some(c) => Some(c@),
        None => None,
    }
}

/// The permission inherited from a template: that of the auto-create
/// template is cut down to read and write while auto-create is off.
pub open spec fn template_perm(default_topic: Seq<char>, perm: u32, auto_create_enable: bool) -> u32 {
    if default_topic == AUTO_CREATE_TOPIC_KEY_TOPIC@ && !auto_create_enable {
        PERM_READ | PERM_WRITE
    } else {
        perm
    }
}

/// The smaller of the requested count and the template's write queue count,
/// and no less than zero.
pub open spec fn negotiated_queue_nums(requested: i32, template_write: u32) -> u32 {
    let m = if (requested as int) < (template_write as int) {
        requested as int
    } else {
        template_write as int
    };
    if m < 0 {
        0
    } else {
        m as u32
    }
}

/// The configuration that the auto-create protocol makes for `topic` from a
/// template whose permission, once cut down, is `perm`.
pub open spec fn auto_created_topic(
    topic: Seq<char>,
    template: TopicConfigView,
    perm: u32,
    requested: i32,
    topic_sys_flag: u32,
) -> TopicConfigView {
    TopicConfigView {
        topic_name: topic,
        read_queue_nums: negotiated_queue_nums(requested, template.write_queue_nums),
        write_queue_nums: negotiated_queue_nums(requested, template.write_queue_nums),
        perm: perm & !PERM_INHERIT,
        topic_filter_type: template.topic_filter_type,
        topic_sys_flag,
        order: false,
        attributes: Seq::empty(),
    }
}

/// The attributes that an update keeps: the reconciled request where it is
/// acceptable, and none where it is not.
pub open spec fn reconciled_attributes(
    create: bool,
    requested: Seq<(Seq<char>, Seq<char>)>,
    current: Map<Seq<char>, Seq<char>>,
) -> Map<Seq<char>, Seq<char>> {
    let schema = assoc_view(topic_attribute_rules());
    if request_ok(create, schema, requested, current) {
        apply_request(current, requested)
    } else {
        Map::empty()
    }
}

/// The configuration with a new order flag.
pub open spec fn with_order(c: TopicConfigView, order: bool) -> TopicConfigView {
    TopicConfigView { order, ..c }
}

/// The configuration that `create_topic_in_send_message_back_method` makes.
pub open spec fn send_back_topic(
    topic: Seq<char>,
    requested: i32,
    perm: u32,
    is_order: bool,
    topic_sys_flag: u32,
) -> TopicConfigView {
    TopicConfigView {
        topic_name: topic,
        read_queue_nums: requested as u32,
        write_queue_nums: requested as u32,
        perm,
        topic_filter_type: TopicFilterType::SingleTag,
        topic_sys_flag,
        order: is_order,
        attributes: Seq::empty(),
    }
}

/// `result` is what an update with `requested` stores over `table`.
pub open spec fn updated_against(
    table: Map<Seq<char>, TopicConfigView>,
    requested: TopicConfigView,
    result: TopicConfigView,
) -> bool {
    let name = requested.topic_name;
    let create = !table.contains_key(name);
    let current = if create {
        Map::empty()
    } else {
        table[name].attribute_map()
    };
    &&& result.topic_name == name
    &&& result.read_queue_nums == requested.read_queue_nums
    &&& result.write_queue_nums == requested.write_queue_nums
    &&& result.perm == requested.perm
    &&& result.topic_filter_type == requested.topic_filter_type
    &&& result.topic_sys_flag == requested.topic_sys_flag
    &&& result.order == requested.order
    &&& result.attribute_map() == reconciled_attributes(create, requested.attributes, current)
}

/// The table after each configuration is put in turn under its name.
pub open spec fn insert_all(
    table: Map<Seq<char>, TopicConfigView>,
    rs: Seq<TopicConfigView>,
) -> Map<Seq<char>, TopicConfigView>
    decreases rs.len(),
{
    if rs.len() == 0 {
        table
    } else {
        insert_all(table, rs.drop_last()).insert(rs.last().topic_name, rs.last())
    }
}

/// Every name in `rs` is in the table after they are all put, and no other
/// name but those the table held.
pub proof fn lemma_insert_all_dom(
    table: Map<Seq<char>, TopicConfigView>,
    rs: Seq<TopicConfigView>,
    k: Seq<char>,
)
    ensures
        insert_all(table, rs).contains_key(k) <==> (table.contains_key(k) || exists|i: int|
            0 <= i < rs.len() && rs[i].topic_name == k),
    decreases rs.len(),
{
    if rs.len() > 0 {
        lemma_insert_all_dom(table, rs.drop_last(), k);
        if exists|i: int| 0 <= i < rs.len() - 1 && rs.drop_last()[i].topic_name == k {
            let i = choose|i: int| 0 <= i < rs.len() - 1 && rs.drop_last()[i].topic_name == k;
            assert(rs[i].topic_name == k);
        }
        if exists|i: int| 0 <= i < rs.len() && rs[i].topic_name == k {
            let i = choose|i: int| 0 <= i < rs.len() && rs[i].topic_name == k;
            if i < rs.len() - 1 {
                assert(rs.drop_last()[i].topic_name == k);
            }
        }
    }
}

/// The permission of the cluster's and the broker's own topics.
pub open spec fn own_topic_perm(enabled: bool) -> u32 {
    if enabled {
        PERM_INHERIT | PERM_READ | PERM_WRITE
    } else {
        PERM_INHERIT
    }
}

/// The system topics that bootstrap puts in the table, in order, each one
/// present where its setting asks for it.
pub open spec fn bootstrap_topics(cfg: BrokerConfig) -> Seq<TopicConfigView> {
    let rw = PERM_READ | PERM_WRITE;
    let d = cfg.default_topic_queue_nums;
    seq![plain_topic(RMQ_SYS_SELF_TEST_TOPIC@, 1, 1, rw)] + (if cfg.auto_create_topic_enable {
        seq![plain_topic(AUTO_CREATE_TOPIC_KEY_TOPIC@, d, d, PERM_INHERIT | PERM_READ | PERM_WRITE)]
    } else {
        Seq::empty()
    }) + seq![
        plain_topic(RMQ_SYS_BENCHMARK_TOPIC@, 1024, 1024, rw),
        plain_topic(
            cfg.broker_cluster_name@,
            DEFAULT_QUEUE_NUMS,
            DEFAULT_QUEUE_NUMS,
            own_topic_perm(cfg.cluster_topic_enable),
        ),
        plain_topic(cfg.broker_name@, 1, 1, own_topic_perm(cfg.broker_topic_enable)),
        plain_topic(RMQ_SYS_OFFSET_MOVED_EVENT@, 1, 1, rw),
        plain_topic(RMQ_SYS_SCHEDULE_TOPIC@, SCHEDULE_TOPIC_QUEUE_NUM, SCHEDULE_TOPIC_QUEUE_NUM, rw),
    ] + (if cfg.trace_topic_enable {
        seq![plain_topic(cfg.msg_trace_topic_name@, 1, 1, rw)]
    } else {
        Seq::empty()
    }) + seq![
        plain_topic(cfg.broker_name@ + "_"@ + REPLY_TOPIC_POSTFIX@, 1, 1, rw),
        plain_topic(
            REVIVE_TOPIC_PREFIX@ + cfg.broker_cluster_name@,
            cfg.revive_queue_num,
            cfg.revive_queue_num,
            rw,
        ),
        plain_topic(SYNC_BROKER_MEMBER_GROUP_PREFIX@ + "_"@ + cfg.broker_name@, 1, 1, PERM_INHERIT),
        plain_topic(RMQ_SYS_TRANS_HALF_TOPIC@, 1, 1, rw),
        plain_topic(RMQ_SYS_TRANS_OP_HALF_TOPIC@, 1, 1, rw),
        plain_topic(RMQ_SYS_TRANS_CHECK_MAX_TIME_TOPIC@, 1, 1, rw),
    ] + (if cfg.timer_wheel_enable {
        seq![plain_topic(TIMER_TOPIC@, 1, 1, rw)]
    } else {
        Seq::empty()
    })
}

/// The full table and its data version, as snapshots carry them.
pub struct TopicConfigSerializeWrapper {
    pub topic_config_table: Option<Vec<TopicConfig>>,
    pub data_version: Option<DataVersion>,
}

/// Putting each entry of a list into an empty table gives the map that the
/// list stands for.
pub proof fn lemma_insert_all_table_map(s: Seq<TopicConfig>)
    ensures
        insert_all(Map::empty(), views(s)) == table_map(s),
    decreases s.len(),
{
    if s.len() > 0 {
        lemma_insert_all_table_map(s.drop_last());
        assert(views(s).drop_last() =~= views(s.drop_last()));
        assert(table_entries(s).drop_last() =~= table_entries(s.drop_last()));
    }
}

/// Copies a list of topics entry by entry.
fn clone_table(t: &Vec<TopicConfig>) -> (r: Vec<TopicConfig>)
    ensures
        views(r@) == views(t@),
        table_entries(r@) == table_entries(t@),
{
    let mut r: Vec<TopicConfig> = Vec::new();
    let mut i: usize = 0;
    while i < t.len()
        invariant
            i <= t@.len(),
            r@.len() == i,
            forall|j: int| 0 <= j < i ==> r@[j]@ == t@[j]@,
        decreases t@.len() - i,
    {
        r.push(t[i].clone());
        i = i + 1;
    }
    assert(views(r@) =~= views(t@));
    assert(table_entries(r@) =~= table_entries(t@));
    r
}

pub struct TopicConfigManager {
    topic_config_table: Vec<TopicConfig>,
    data_version: DataVersion,
    broker_config: BrokerConfig,
    pending_registrations: Vec<Registration>,
}

impl TopicConfigManager {
    /// The topic table: names are unique.
    pub closed spec fn wf(&self) -> bool {
        keys_unique(table_entries(self.topic_config_table@))
    }

    pub closed spec fn table(&self) -> Map<Seq<char>, TopicConfigView> {
        table_map(self.topic_config_table@)
    }

    pub closed spec fn version(&self) -> DataVersion {
        self.data_version
    }

    pub closed spec fn config(&self) -> BrokerConfig {
        self.broker_config
    }

    /// The registrations that wait to be sent, oldest first.
    pub closed spec fn registrations(&self) -> Seq<RegistrationView> {
        self.pending_registrations@.map_values(|r: Registration| r@)
    }

    /// Everything but the pending registrations is as in `other`.
    pub open spec fn same_state(&self, other: &TopicConfigManager) -> bool {
        &&& self.table() == other.table()
        &&& self.version() == other.version()
        &&& self.config() == other.config()
    }

    /// Nothing changed: not the table, the version, the settings or the
    /// pending registrations.
    pub open spec fn unchanged(&self, other: &TopicConfigManager) -> bool {
        &&& self.same_state(other)
        &&& self.registrations() == other.registrations()
        &&& self.wf() == other.wf()
    }

    /// The outcome of `create_topic_in_send_message_method` from `self`
    /// to `new`, with result `r`.
    pub open spec fn create_on_send_post(
        &self,
        new: &TopicConfigManager,
        topic: Seq<char>,
        default_topic: Seq<char>,
        requested: i32,
        topic_sys_flag: u32,
        creation_lock_acquired: bool,
        state_machine_version: u64,
        now: u64,
        r: Option<TopicConfigView>,
    ) -> bool {
        if self.table().contains_key(topic) {
            r == Some(self.table()[topic]) && new.unchanged(self)
        } else if !creation_lock_acquired || !self.table().contains_key(default_topic) {
            r is None && new.unchanged(self)
        } else {
            let template = self.table()[default_topic];
            let perm = template_perm(default_topic, template.perm, self.config().auto_create_topic_enable);
            if !has_bit(perm, PERM_INHERIT) {
                r is None && new.unchanged(self)
            } else {
                let c = auto_created_topic(topic, template, perm, requested, topic_sys_flag);
                &&& r == Some(c)
                &&& new.wf()
                &&& new.table() == self.table().insert(topic, c)
                &&& new.version() == advanced(self.version(), state_machine_version, now)
                &&& new.config() == self.config()
                &&& new.registrations() == self.registrations().push(
                    RegistrationView {
                        topic_config: c,
                        data_version: new.version(),
                        single_topic: self.config().enable_single_topic_register,
                    },
                )
            }
        }
    }

    /// `result` is what an update with `requested` stores: the request with
    /// its attributes reconciled against those the table holds for the topic.
    pub open spec fn updated_topic(&self, requested: TopicConfigView, result: TopicConfigView) -> bool {
        updated_against(self.table(), requested, result)
    }

    /// `new` is `self` after an update that stored `result`.
    pub open spec fn update_post(
        &self,
        new: &TopicConfigManager,
        requested: TopicConfigView,
        state_machine_version: u64,
        now: u64,
        result: TopicConfigView,
    ) -> bool {
        &&& self.updated_topic(requested, result)
        &&& new.wf()
        &&& new.table() == self.table().insert(requested.topic_name, result)
        &&& new.version() == advanced(self.version(), state_machine_version, now)
        &&& new.config() == self.config()
        &&& new.registrations() == self.registrations()
    }

    /// The outcome of a creation that makes `c` under `topic` unless the
    /// table holds the topic: nothing changes but where the creation lock
    /// was had and the topic is new.
    pub open spec fn create_if_absent_post(
        &self,
        new: &TopicConfigManager,
        topic: Seq<char>,
        c: TopicConfigView,
        creation_lock_acquired: bool,
        state_machine_version: u64,
        now: u64,
        r: Option<TopicConfigView>,
    ) -> bool {
        if self.table().contains_key(topic) {
            r == Some(self.table()[topic]) && new.unchanged(self)
        } else if !creation_lock_acquired {
            r is None && new.unchanged(self)
        } else {
            &&& r == Some(c)
            &&& new.wf()
            &&& new.table() == self.table().insert(topic, c)
            &&& new.version() == advanced(self.version(), state_machine_version, now)
            &&& new.config() == self.config()
            &&& new.registrations() == self.registrations().push(
                RegistrationView {
                    topic_config: c,
                    data_version: new.version(),
                    single_topic: self.config().enable_single_topic_register,
                },
            )
        }
    }

    /// The outcome of `create_topic_in_send_message_back_method`.
    pub open spec fn create_on_send_back_post(
        &self,
        new: &TopicConfigManager,
        topic: Seq<char>,
        requested: i32,
        perm: u32,
        is_order: bool,
        topic_sys_flag: u32,
        creation_lock_acquired: bool,
        state_machine_version: u64,
        now: u64,
        r: Option<TopicConfigView>,
    ) -> bool {
        if self.table().contains_key(topic) {
            let cur = self.table()[topic];
            if cur.order != is_order {
                &&& r is Some
                &&& self.update_post(new, with_order(cur, is_order), state_machine_version, now, r.unwrap())
            } else {
                r == Some(cur) && new.unchanged(self)
            }
        } else {
            self.create_if_absent_post(
                new,
                topic,
                send_back_topic(topic, requested, perm, is_order, topic_sys_flag),
                creation_lock_acquired,
                state_machine_version,
                now,
                r,
            )
        }
    }

    fn find(&self, topic: &String) -> (r: Option<usize>)
        requires
            self.wf(),
        ensures
            r is None ==> !self.table().contains_key(topic@),
            r matches Some(i) ==> i < self.topic_config_table@.len()
                && self.topic_config_table@[i as int].topic_name@ == topic@
                && self.table().contains_key(topic@)
                && self.table()[topic@] == self.topic_config_table@[i as int]@,
    {
        let ghost s = table_entries(self.topic_config_table@);
        let mut i: usize = 0;
        while i < self.topic_config_table.len()
            invariant
                i <= self.topic_config_table@.len(),
                s == table_entries(self.topic_config_table@),
                keys_unique(s),
                forall|j: int| 0 <= j < i ==> s[j].0 != topic@,
            decreases self.topic_config_table@.len() - i,
        {
            if self.topic_config_table[i].topic_name == *topic {
                proof {
                    lemma_entry(s, i as int);
                }
                return Some(i);
            }
            i = i + 1;
        }
        proof {
            lemma_dom(s, topic@);
        }
        None
    }

    /// A copy of the configuration of `topic`, if the table holds it.
    pub fn select_topic_config(&self, topic: &str) -> (r: Option<TopicConfig>)
        requires
            self.wf(),
        ensures
            r is None <==> !self.table().contains_key(topic@),
            r matches Some(c) ==> c@ == self.table()[topic@],
    {
        let name = String::from_str(topic);
        match self.find(&name) {
            Some(i) => Some(self.topic_config_table[i].clone()),
            None => None,
        }
    }

    pub fn contains_topic(&self, topic: &str) -> (r: bool)
        requires
            self.wf(),
        ensures
            r == self.table().contains_key(topic@),
    {
        let name = String::from_str(topic);
        self.find(&name).is_some()
    }

    /// Whether `topic` is in the table and ordered.
    pub fn is_order_topic(&self, topic: &str) -> (r: bool)
        requires
            self.wf(),
        ensures
            r == (self.table().contains_key(topic@) && self.table()[topic@].order),
    {
        let name = String::from_str(topic);
        match self.find(&name) {
            Some(i) => self.topic_config_table[i].order,
            None => false,
        }
    }

    /// Puts `topic_config` in the table under its name, returning the entry
    /// it replaced. Neither the data version nor anything else changes.
    pub fn put_topic_config(&mut self, topic_config: TopicConfig) -> (r: Option<TopicConfig>)
        requires
            old(self).wf(),
        ensures
            final(self).wf(),
            final(self).table() == old(self).table().insert(topic_config.topic_name@, topic_config@),
            r is None <==> !old(self).table().contains_key(topic_config.topic_name@),
            r matches Some(c) ==> c@ == old(self).table()[topic_config.topic_name@],
            final(self).version() == old(self).version(),
            final(self).config() == old(self).config(),
            final(self).registrations() == old(self).registrations(),
    {
        let ghost s = table_entries(self.topic_config_table@);
        let ghost entry = (topic_config.topic_name@, topic_config@);
        match self.find(&topic_config.topic_name) {
            Some(i) => {
                let mut c = topic_config;
                std::mem::swap(&mut c, &mut self.topic_config_table[i]);
                proof {
                    lemma_update(s, i as int, entry.1);
                    assert(table_entries(self.topic_config_table@) =~= s.update(i as int, entry));
                }
                Some(c)
            },
            None => {
                proof {
                    lemma_dom(s, entry.0);
                }
                self.topic_config_table.push(topic_config);
                proof {
                    lemma_push(s, entry.0, entry.1);
                    assert(table_entries(self.topic_config_table@) =~= s.push(entry));
                }
                None
            },
        }
    }

    /// Takes `topic` out of the table, returning its entry. Neither the data
    /// version nor anything else changes.
    pub fn remove_topic_config(&mut self, topic: &str) -> (r: Option<TopicConfig>)
        requires
            old(self).wf(),
        ensures
            final(self).wf(),
            final(self).table() == old(self).table().remove(topic@),
            r is None <==> !old(self).table().contains_key(topic@),
            r matches Some(c) ==> c@ == old(self).table()[topic@],
            final(self).version() == old(self).version(),
            final(self).config() == old(self).config(),
            final(self).registrations() == old(self).registrations(),
    {
        let ghost s = table_entries(self.topic_config_table@);
        let name = String::from_str(topic);
        match self.find(&name) {
            Some(i) => {
                let c = self.topic_config_table.remove(i);
                proof {
                    lemma_remove(s, i as int);
                    assert(table_entries(self.topic_config_table@) =~= s.remove(i as int));
                }
                Some(c)
            },
            None => {
                assert(old(self).table().remove(topic@) =~= old(self).table());
                None
            },
        }
    }
}

impl TopicConfigManager {
    /// Advances the data version after a change of the table.
    fn advance(&mut self, state_machine_version: u64, now: u64)
        requires
            old(self).version().counter < u64::MAX,
        ensures
            final(self).version() == advanced(old(self).version(), state_machine_version, now),
            final(self).topic_config_table == old(self).topic_config_table,
            final(self).config() == old(self).config(),
            final(self).registrations() == old(self).registrations(),
    {
        self.data_version.next_version_with(state_machine_version, now);
    }

    /// Queues `topic_config` for the naming layer, alone or as an increment
    /// with the current data version, as the settings ask.
    fn register_broker_data(&mut self, topic_config: &TopicConfig)
        ensures
            final(self).topic_config_table == old(self).topic_config_table,
            final(self).version() == old(self).version(),
            final(self).config() == old(self).config(),
            final(self).registrations() == old(self).registrations().push(
                RegistrationView {
                    topic_config: topic_config@,
                    data_version: old(self).version(),
                    single_topic: old(self).config().enable_single_topic_register,
                },
            ),
    {
        let reg = Registration {
            topic_config: topic_config.clone(),
            data_version: self.data_version,
            single_topic: self.broker_config.enable_single_topic_register,
        };
        self.pending_registrations.push(reg);
        assert(self.registrations() =~= old(self).registrations().push(reg@));
    }

    /// The auto-create protocol of a producer's send: the configuration of
    /// `topic` if the table holds it; else, where the creation lock was
    /// had, one made from the template `default_topic` if the template
    /// exists and may be inherited. A new topic is put in the table, the data
    /// version advances and the topic is queued for registration.
    pub fn create_topic_in_send_message_method(
        &mut self,
        topic: &str,
        default_topic: &str,
        client_default_topic_queue_nums: i32,
        topic_sys_flag: u32,
        creation_lock_acquired: bool,
        state_machine_version: u64,
        now: u64,
    ) -> (r: Option<TopicConfig>)
        requires
            old(self).wf(),
            old(self).version().counter < u64::MAX,
        ensures
            final(self).wf(),
            old(self).create_on_send_post(
                &*final(self),
                topic@,
                default_topic@,
                client_default_topic_queue_nums,
                topic_sys_flag,
                creation_lock_acquired,
                state_machine_version,
                now,
                opt_view(r),
            ),
    {
        if let Some(c) = self.select_topic_config(topic) {
            return Some(c);
        }
        if !creation_lock_acquired {
            return None;
        }
        let template = match self.select_topic_config(default_topic) {
            Some(t) => t,
            None => return None,
        };
        let mut perm = template.perm;
        let default_name = String::from_str(default_topic);
        let auto_create_name = String::from_str(AUTO_CREATE_TOPIC_KEY_TOPIC);
        if default_name == auto_create_name && !self.broker_config.auto_create_topic_enable {
            perm = PERM_READ | PERM_WRITE;
        }
        if !is_inherited(perm) {
            return None;
        }
        let requested = client_default_topic_queue_nums;
        let w = template.write_queue_nums;
        let queue_nums: u32 = if requested <= 0 {
            0
        } else if (requested as u32) < w {
            requested as u32
        } else {
            w
        };
        let mut topic_config = TopicConfig::new(topic);
        topic_config.write_queue_nums = queue_nums;
        topic_config.read_queue_nums = queue_nums;
        topic_config.perm = perm & !PERM_INHERIT;
        topic_config.topic_sys_flag = topic_sys_flag;
        topic_config.topic_filter_type = template.topic_filter_type;
        let ghost c = auto_created_topic(topic@, template@, perm, requested, topic_sys_flag);
        assert(topic_config@.attributes =~= c.attributes);
        self.put_topic_config(topic_config.clone());
        self.advance(state_machine_version, now);
        self.register_broker_data(&topic_config);
        Some(topic_config)
    }
}

impl TopicConfigManager {
    /// The attributes held for `topic`, none if the table lacks it.
    fn current(&self, topic: &String) -> (r: Vec<(String, String)>)
        requires
            self.wf(),
        ensures
            self.table().contains_key(topic@) ==> attr_map(r@) == self.table()[topic@].attribute_map(),
            !self.table().contains_key(topic@) ==> attr_map(r@) == Map::<Seq<char>, Seq<char>>::empty(),
    {
        match self.find(topic) {
            Some(i) => clone_attributes(&self.topic_config_table[i].attributes),
            None => {
                let r: Vec<(String, String)> = Vec::new();
                assert(attr_map(r@) =~= Map::empty()) by {
                    assert(attr_entries(r@) =~= Seq::empty());
                }
                r
            },
        }
    }

    /// Replaces the entry of a topic by an administrator's configuration: its
    /// attributes are reconciled with those held (and dropped where the
    /// request is not acceptable), the entry is stored and the data version
    /// advances.
    pub fn update_topic_config(
        &mut self,
        topic_config: &mut TopicConfig,
        state_machine_version: u64,
        now: u64,
    )
        requires
            old(self).wf(),
            old(self).version().counter < u64::MAX,
        ensures
            old(self).update_post(
                &*final(self),
                old(topic_config)@,
                state_machine_version,
                now,
                final(topic_config)@,
            ),
    {
        let name = topic_config.topic_name.clone();
        let create = !self.contains_topic(name.as_str());
        let current = self.current(&name);
        let all = topic_attributes_all();
        match alter_current_attributes(create, &all, &topic_config.attributes, &current) {
            Ok(final_attributes) => {
                topic_config.attributes = final_attributes;
            },
            Err(_) => {
                let empty: Vec<(String, String)> = Vec::new();
                assert(attr_entries(empty@) =~= Seq::empty());
                topic_config.attributes = empty;
            },
        }
        self.put_topic_config(topic_config.clone());
        self.advance(state_machine_version, now);
    }

    /// Removes `topic` and advances the data version; a topic that the
    /// table lacks leaves everything as it was.
    pub fn delete_topic_config(&mut self, topic: &str, state_machine_version: u64, now: u64)
        requires
            old(self).wf(),
            old(self).version().counter < u64::MAX,
        ensures
            final(self).wf(),
            old(self).table().contains_key(topic@) ==> {
                &&& final(self).table() == old(self).table().remove(topic@)
                &&& final(self).version() == advanced(old(self).version(), state_machine_version, now)
                &&& final(self).config() == old(self).config()
                &&& final(self).registrations() == old(self).registrations()
            },
            !old(self).table().contains_key(topic@) ==> final(self).unchanged(&*old(self)),
    {
        if self.remove_topic_config(topic).is_some() {
            self.advance(state_machine_version, now);
        } else {
            assert(self.table() =~= old(self).table());
        }
    }

    /// The variant of auto-create for a message sent back: the topic's
    /// configuration if the table holds it, its order flag first corrected
    /// by an update; else, where the creation lock was had, a new topic
    /// with the given counts, permission and flags.
    pub fn create_topic_in_send_message_back_method(
        &mut self,
        topic: &str,
        client_default_topic_queue_nums: i32,
        perm: u32,
        is_order: bool,
        topic_sys_flag: u32,
        creation_lock_acquired: bool,
        state_machine_version: u64,
        now: u64,
    ) -> (r: Option<TopicConfig>)
        requires
            old(self).wf(),
            old(self).version().counter < u64::MAX,
        ensures
            final(self).wf(),
            old(self).create_on_send_back_post(
                &*final(self),
                topic@,
                client_default_topic_queue_nums,
                perm,
                is_order,
                topic_sys_flag,
                creation_lock_acquired,
                state_machine_version,
                now,
                opt_view(r),
            ),
    {
        if let Some(mut config) = self.select_topic_config(topic) {
            if is_order != config.order {
                config.order = is_order;
                self.update_topic_config(&mut config, state_machine_version, now);
            }
            return Some(config);
        }
        if !creation_lock_acquired {
            return None;
        }
        let mut config = TopicConfig::new(topic);
        config.read_queue_nums = client_default_topic_queue_nums as u32;
        config.write_queue_nums = client_default_topic_queue_nums as u32;
        config.perm = perm;
        config.topic_sys_flag = topic_sys_flag;
        config.order = is_order;
        assert(config@.attributes =~= Seq::empty());
        self.put_topic_config(config.clone());
        self.advance(state_machine_version, now);
        self.register_broker_data(&config);
        Some(config)
    }

    /// Makes the topic that bounds how long a transaction is checked, unless
    /// the table holds it, with the given counts and permission.
    pub fn create_topic_of_tran_check_max_time(
        &mut self,
        client_default_topic_queue_nums: i32,
        perm: u32,
        creation_lock_acquired: bool,
        state_machine_version: u64,
        now: u64,
    ) -> (r: Option<TopicConfig>)
        requires
            old(self).wf(),
            old(self).version().counter < u64::MAX,
        ensures
            final(self).wf(),
            old(self).create_if_absent_post(
                &*final(self),
                RMQ_SYS_TRANS_CHECK_MAX_TIME_TOPIC@,
                send_back_topic(
                    RMQ_SYS_TRANS_CHECK_MAX_TIME_TOPIC@,
                    client_default_topic_queue_nums,
                    perm,
                    false,
                    0,
                ),
                creation_lock_acquired,
                state_machine_version,
                now,
                opt_view(r),
            ),
    {
        if let Some(config) = self.select_topic_config(RMQ_SYS_TRANS_CHECK_MAX_TIME_TOPIC) {
            return Some(config);
        }
        if !creation_lock_acquired {
            return None;
        }
        let mut config = TopicConfig::new(RMQ_SYS_TRANS_CHECK_MAX_TIME_TOPIC);
        config.read_queue_nums = client_default_topic_queue_nums as u32;
        config.write_queue_nums = client_default_topic_queue_nums as u32;
        config.perm = perm;
        config.topic_sys_flag = 0;
        assert(config@.attributes =~= Seq::empty());
        self.put_topic_config(config.clone());
        self.advance(state_machine_version, now);
        self.register_broker_data(&config);
        Some(config)
    }

    /// Updates each configuration of the list in turn, as
    /// `update_topic_config` does; each stored entry replaces its request.
    pub fn update_topic_config_list(
        &mut self,
        topic_config_list: &mut Vec<TopicConfig>,
        state_machine_version: u64,
        now: u64,
    )
        requires
            old(self).wf(),
            old(self).version().counter + old(topic_config_list)@.len() <= u64::MAX,
        ensures
            final(self).wf(),
            final(topic_config_list)@.len() == old(topic_config_list)@.len(),
            forall|i: int|
                0 <= i < old(topic_config_list)@.len() ==> updated_against(
                    insert_all(old(self).table(), views(final(topic_config_list)@).subrange(0, i)),
                    old(topic_config_list)@[i]@,
                    final(topic_config_list)@[i]@,
                ),
            final(self).table() == insert_all(old(self).table(), views(final(topic_config_list)@)),
            final(self).version().counter == old(self).version().counter + old(
                topic_config_list,
            )@.len(),
            old(topic_config_list)@.len() > 0 ==> final(self).version().state_version
                == state_machine_version && final(self).version().timestamp == now,
            old(topic_config_list)@.len() == 0 ==> final(self).version() == old(self).version(),
            final(self).config() == old(self).config(),
            final(self).registrations() == old(self).registrations(),
    {
        let n = topic_config_list.len();
        let mut i: usize = 0;
        assert(views(topic_config_list@).subrange(0, 0) =~= Seq::empty());
        while i < n
            invariant
                n == topic_config_list@.len() == old(topic_config_list)@.len(),
                i <= n,
                self.wf(),
                self.version().counter == old(self).version().counter + i,
                self.version().counter + (n - i) <= u64::MAX,
                i > 0 ==> self.version().state_version == state_machine_version
                    && self.version().timestamp == now,
                i == 0 ==> self.version() == old(self).version(),
                self.config() == old(self).config(),
                self.registrations() == old(self).registrations(),
                self.table() == insert_all(old(self).table(), views(topic_config_list@).subrange(0, i as int)),
                forall|j: int| i <= j < n ==> topic_config_list@[j] == old(topic_config_list)@[j],
                forall|j: int|
                    0 <= j < i ==> updated_against(
                        insert_all(old(self).table(), views(topic_config_list@).subrange(0, j)),
                        old(topic_config_list)@[j]@,
                        topic_config_list@[j]@,
                    ),
            decreases n - i,
        {
            let ghost before = views(topic_config_list@);
            let mut c = topic_config_list[i].clone();
            self.update_topic_config(&mut c, state_machine_version, now);
            topic_config_list.set(i, c);
            proof {
                let after = views(topic_config_list@);
                assert forall|j: int| 0 <= j <= i implies after.subrange(0, j) == before.subrange(0, j) by {
                    assert(after.subrange(0, j) =~= before.subrange(0, j));
                }
                assert(after.subrange(0, i + 1).drop_last() =~= after.subrange(0, i as int));
            }
            i = i + 1;
        }
        assert(views(topic_config_list@).subrange(0, n as int) == views(topic_config_list@));
    }
}

impl TopicConfigManager {
    /// Puts a topic during bootstrap, recording it in `added`.
    fn put_bootstrap(&mut self, c: TopicConfig, Ghost(added): Ghost<Seq<TopicConfigView>>)
        requires
            old(self).wf(),
            old(self).table() == insert_all(Map::empty(), added),
        ensures
            final(self).wf(),
            final(self).table() == insert_all(Map::empty(), added.push(c@)),
            final(self).version() == old(self).version(),
            final(self).config() == old(self).config(),
            final(self).registrations() == old(self).registrations(),
    {
        assert(added.push(c@).drop_last() == added);
        self.put_topic_config(c);
    }

    /// A registry for the broker `broker_config`, its data version stamped
    /// `now`; with `init`, holding the system topics that the settings ask for.
    pub fn new(broker_config: BrokerConfig, init: bool, now: u64) -> (r: TopicConfigManager)
        ensures
            r.wf(),
            r.config() == broker_config,
            r.version() == (DataVersion { state_version: 0, timestamp: now, counter: 0 }),
            r.registrations() == Seq::<RegistrationView>::empty(),
            init ==> r.table() == insert_all(Map::empty(), bootstrap_topics(broker_config)),
            !init ==> r.table() == Map::<Seq<char>, TopicConfigView>::empty(),
    {
        let mut manager = TopicConfigManager {
            topic_config_table: Vec::new(),
            data_version: DataVersion::new(now),
            broker_config,
            pending_registrations: Vec::new(),
        };
        proof {
            assert(table_entries(manager.topic_config_table@) =~= Seq::empty());
            assert(manager.registrations() =~= Seq::empty());
        }
        if init {
            manager.init();
        }
        manager
    }

    #[verifier::rlimit(100)]
    fn init(&mut self)
        requires
            old(self).wf(),
            old(self).table() == Map::<Seq<char>, TopicConfigView>::empty(),
        ensures
            final(self).wf(),
            final(self).table() == insert_all(Map::empty(), bootstrap_topics(old(self).config())),
            final(self).version() == old(self).version(),
            final(self).config() == old(self).config(),
            final(self).registrations() == old(self).registrations(),
    {
        let ghost added: Seq<TopicConfigView> = Seq::empty();
        let ghost cfg = self.config();
        assert(insert_all(Map::empty(), added) == Map::<Seq<char>, TopicConfigView>::empty());
        let rw = PERM_READ | PERM_WRITE;
        let c = TopicConfig::with_queues(RMQ_SYS_SELF_TEST_TOPIC, 1, 1);
        self.put_bootstrap(c, Ghost(added));
        proof { added = added.push(c@); }
        if self.broker_config.auto_create_topic_enable {
            let d = self.broker_config.default_topic_queue_nums;
            let c = TopicConfig::with_perm(
                AUTO_CREATE_TOPIC_KEY_TOPIC,
                d,
                d,
                PERM_INHERIT | PERM_READ | PERM_WRITE,
            );
            self.put_bootstrap(c, Ghost(added));
            proof { added = added.push(c@); }
        }
        let c = TopicConfig::with_queues(RMQ_SYS_BENCHMARK_TOPIC, 1024, 1024);
        self.put_bootstrap(c, Ghost(added));
        proof { added = added.push(c@); }
        let mut perm = PERM_INHERIT;
        if self.broker_config.cluster_topic_enable {
            perm = perm | PERM_READ | PERM_WRITE;
        }
        let mut c = TopicConfig::new(self.broker_config.broker_cluster_name.as_str());
        c.perm = perm;
        self.put_bootstrap(c, Ghost(added));
        proof { added = added.push(c@); }
        let mut perm = PERM_INHERIT;
        if self.broker_config.broker_topic_enable {
            perm = perm | PERM_READ | PERM_WRITE;
        }
        let mut c = TopicConfig::new(self.broker_config.broker_name.as_str());
        c.write_queue_nums = 1;
        c.read_queue_nums = 1;
        c.perm = perm;
        self.put_bootstrap(c, Ghost(added));
        proof { added = added.push(c@); }
        let c = TopicConfig::with_queues(RMQ_SYS_OFFSET_MOVED_EVENT, 1, 1);
        self.put_bootstrap(c, Ghost(added));
        proof { added = added.push(c@); }
        let c = TopicConfig::with_queues(
            RMQ_SYS_SCHEDULE_TOPIC,
            SCHEDULE_TOPIC_QUEUE_NUM,
            SCHEDULE_TOPIC_QUEUE_NUM,
        );
        self.put_bootstrap(c, Ghost(added));
        proof { added = added.push(c@); }
        if self.broker_config.trace_topic_enable {
            let c = TopicConfig::with_queues(self.broker_config.msg_trace_topic_name.as_str(), 1, 1);
            self.put_bootstrap(c, Ghost(added));
            proof { added = added.push(c@); }
        }
        let name = self.broker_config.broker_name.clone().concat("_").concat(REPLY_TOPIC_POSTFIX);
        let c = TopicConfig::with_queues(name.as_str(), 1, 1);
        self.put_bootstrap(c, Ghost(added));
        proof { added = added.push(c@); }
        let name = String::from_str(REVIVE_TOPIC_PREFIX).concat(
            self.broker_config.broker_cluster_name.as_str(),
        );
        let n = self.broker_config.revive_queue_num;
        let c = TopicConfig::with_queues(name.as_str(), n, n);
        self.put_bootstrap(c, Ghost(added));
        proof { added = added.push(c@); }
        let name = String::from_str(SYNC_BROKER_MEMBER_GROUP_PREFIX).concat("_").concat(
            self.broker_config.broker_name.as_str(),
        );
        let c = TopicConfig::with_perm(name.as_str(), 1, 1, PERM_INHERIT);
        self.put_bootstrap(c, Ghost(added));
        proof { added = added.push(c@); }
        let c = TopicConfig::with_queues(RMQ_SYS_TRANS_HALF_TOPIC, 1, 1);
        self.put_bootstrap(c, Ghost(added));
        proof { added = added.push(c@); }
        let c = TopicConfig::with_queues(RMQ_SYS_TRANS_OP_HALF_TOPIC, 1, 1);
        self.put_bootstrap(c, Ghost(added));
        proof { added = added.push(c@); }
        let c = TopicConfig::with_queues(RMQ_SYS_TRANS_CHECK_MAX_TIME_TOPIC, 1, 1);
        self.put_bootstrap(c, Ghost(added));
        proof { added = added.push(c@); }
        if self.broker_config.timer_wheel_enable {
            let c = TopicConfig::with_queues(TIMER_TOPIC, 1, 1);
            self.put_bootstrap(c, Ghost(added));
            proof { added = added.push(c@); }
        }
        assert(added =~= bootstrap_topics(cfg));
    }
}

impl TopicConfigManager {
    pub fn data_version(&self) -> (r: DataVersion)
        ensures
            r == self.version(),
    {
        self.data_version
    }

    pub fn broker_config(&self) -> (r: &BrokerConfig)
        ensures
            *r == self.config(),
    {
        &self.broker_config
    }

    /// A copy of the table, one entry per topic.
    pub fn topic_config_table(&self) -> (r: Vec<TopicConfig>)
        requires
            self.wf(),
        ensures
            keys_unique(table_entries(r@)),
            table_map(r@) == self.table(),
    {
        clone_table(&self.topic_config_table)
    }

    /// Replaces the table by the entries of `topic_config_table`, a later
    /// entry winning over an earlier one of the same name.
    pub fn set_topic_config_table(&mut self, topic_config_table: Vec<TopicConfig>)
        ensures
            final(self).wf(),
            final(self).table() == table_map(topic_config_table@),
            final(self).version() == old(self).version(),
            final(self).config() == old(self).config(),
            final(self).registrations() == old(self).registrations(),
    {
        self.topic_config_table = Vec::new();
        assert(table_entries(self.topic_config_table@) =~= Seq::empty());
        let mut i: usize = 0;
        let ghost vs = views(topic_config_table@);
        assert(vs.subrange(0, 0) =~= Seq::empty());
        while i < topic_config_table.len()
            invariant
                i <= topic_config_table@.len(),
                vs == views(topic_config_table@),
                self.wf(),
                self.table() == insert_all(Map::empty(), vs.subrange(0, i as int)),
                self.version() == old(self).version(),
                self.config() == old(self).config(),
                self.registrations() == old(self).registrations(),
            decreases topic_config_table@.len() - i,
        {
            self.put_topic_config(topic_config_table[i].clone());
            assert(vs.subrange(0, i + 1).drop_last() =~= vs.subrange(0, i as int));
            i = i + 1;
        }
        assert(vs.subrange(0, vs.len() as int) == vs);
        proof {
            lemma_insert_all_table_map(topic_config_table@);
        }
    }

    /// The table and the data version, as a snapshot holds them.
    pub fn topic_config_serialize_wrapper(&self) -> (r: TopicConfigSerializeWrapper)
        requires
            self.wf(),
        ensures
            r.topic_config_table matches Some(t) && keys_unique(table_entries(t@))
                && table_map(t@) == self.table(),
            r.data_version == Some(self.version()),
    {
        TopicConfigSerializeWrapper {
            topic_config_table: Some(clone_table(&self.topic_config_table)),
            data_version: Some(self.data_version),
        }
    }

    /// Wraps a table with the data version for registration, advancing the
    /// version first where registration is split.
    pub fn build_serialize_wrapper(&mut self, topic_config_table: Vec<TopicConfig>, now: u64) -> (r:
        TopicConfigSerializeWrapper)
        requires
            old(self).config().enable_split_registration ==> old(self).version().counter
                < u64::MAX,
        ensures
            final(self).table() == old(self).table(),
            final(self).wf() == old(self).wf(),
            final(self).config() == old(self).config(),
            final(self).registrations() == old(self).registrations(),
            old(self).config().enable_split_registration ==> final(self).version() == (DataVersion {
                state_version: old(self).version().state_version,
                timestamp: now,
                counter: (old(self).version().counter + 1) as u64,
            }),
            !old(self).config().enable_split_registration ==> final(self).version() == old(
                self,
            ).version(),
            r.topic_config_table == Some(topic_config_table),
            r.data_version == Some(final(self).version()),
    {
        if self.broker_config.enable_split_registration {
            self.data_version.next_version(now);
        }
        TopicConfigSerializeWrapper {
            topic_config_table: Some(topic_config_table),
            data_version: Some(self.data_version),
        }
    }

    /// Takes in a decoded snapshot: its data version, if any, replaces the
    /// registry's, and each of its entries, if any, is put in the table.
    pub fn decode_serialize_wrapper(&mut self, wrapper: TopicConfigSerializeWrapper)
        requires
            old(self).wf(),
        ensures
            final(self).wf(),
            final(self).table() == (match wrapper.topic_config_table {
                Some(t) => insert_all(old(self).table(), views(t@)),
                None => old(self).table(),
            }),
            final(self).version() == (match wrapper.data_version {
                Some(v) => v,
                None => old(self).version(),
            }),
            final(self).config() == old(self).config(),
            final(self).registrations() == old(self).registrations(),
    {
        if let Some(v) = wrapper.data_version {
            self.data_version.assign_new_one(&v);
        }
        if let Some(t) = wrapper.topic_config_table {
            let ghost t0 = self.table();
            let ghost vs = views(t@);
            let mut i: usize = 0;
            assert(vs.subrange(0, 0) =~= Seq::empty());
            while i < t.len()
                invariant
                    i <= t@.len(),
                    vs == views(t@),
                    self.wf(),
                    self.table() == insert_all(t0, vs.subrange(0, i as int)),
                    self.version() == (match wrapper.data_version {
                        Some(v) => v,
                        None => old(self).version(),
                    }),
                    self.config() == old(self).config(),
                    self.registrations() == old(self).registrations(),
                decreases t@.len() - i,
            {
                self.put_topic_config(t[i].clone());
                assert(vs.subrange(0, i + 1).drop_last() =~= vs.subrange(0, i as int));
                i = i + 1;
            }
            assert(vs.subrange(0, vs.len() as int) == vs);
        }
    }

    /// Hands over the registrations that wait to be sent, oldest first.
    pub fn take_pending_registrations(&mut self) -> (r: Vec<Registration>)
        ensures
            r@.map_values(|x: Registration| x@) == old(self).registrations(),
            final(self).registrations() == Seq::<RegistrationView>::empty(),
            final(self).same_state(&*old(self)),
            final(self).wf() == old(self).wf(),
    {
        let mut r: Vec<Registration> = Vec::new();
        std::mem::swap(&mut r, &mut self.pending_registrations);
        assert(self.registrations() =~= Seq::empty());
        r
    }

    /// Where the table's snapshot is kept under the broker's storage root.
    pub fn config_file_path(&self) -> (r: String)
        ensures
            r@ == self.config().store_path_root_dir@ + "/config/topics.json"@,
    {
        self.broker_config.store_path_root_dir.clone().concat("/config/topics.json")
    }
}

/// Taking a registry's snapshot into a registry with an empty table gives
/// the same table and data version.
pub proof fn lemma_snapshot_round_trip(
    source: TopicConfigManager,
    wrapper: TopicConfigSerializeWrapper,
    before: TopicConfigManager,
    after: TopicConfigManager,
)
    requires
        wrapper.topic_config_table matches Some(t) && table_map(t@) == source.table(),
        wrapper.data_version == Some(source.version()),
        before.table() == Map::<Seq<char>, TopicConfigView>::empty(),
        after.table() == (match wrapper.topic_config_table {
            Some(t) => insert_all(before.table(), views(t@)),
            None => before.table(),
        }),
        after.version() == (match wrapper.data_version {
            Some(v) => v,
            None => before.version(),
        }),
    ensures
        after.table() == source.table(),
        after.version() == source.version(),
{
    lemma_insert_all_table_map(wrapper.topic_config_table.unwrap()@);
}

/// A topic that the auto-create protocol made is then found in the table,
/// with the smaller of the requested and the template's write queue count
/// (and no less than zero) for both counts, and without the inherit bit.
pub proof fn lemma_auto_created_topic_lookup(
    before: TopicConfigManager,
    after: TopicConfigManager,
    topic: Seq<char>,
    default_topic: Seq<char>,
    requested: i32,
    topic_sys_flag: u32,
    creation_lock_acquired: bool,
    state_machine_version: u64,
    now: u64,
    r: Option<TopicConfigView>,
)
    requires
        before.create_on_send_post(
            &after,
            topic,
            default_topic,
            requested,
            topic_sys_flag,
            creation_lock_acquired,
            state_machine_version,
            now,
            r,
        ),
        !before.table().contains_key(topic),
        r is Some,
    ensures
        after.table().contains_key(topic),
        after.table()[topic] == r.unwrap(),
        before.table().contains_key(default_topic),
        r.unwrap().write_queue_nums as int == (if requested < before.table()[default_topic].write_queue_nums {
            if requested < 0 { 0 } else { requested as int }
        } else {
            before.table()[default_topic].write_queue_nums as int
        }),
        r.unwrap().read_queue_nums == r.unwrap().write_queue_nums,
        !has_bit(r.unwrap().perm, PERM_INHERIT),
{
    let template = before.table()[default_topic];
    let perm = template_perm(default_topic, template.perm, before.config().auto_create_topic_enable);
    lemma_clear_inherit(perm);
}

/// Once a call has made a topic, every later call for it returns the same
/// configuration and changes nothing: one insertion, whatever the number of
/// callers.
pub proof fn lemma_auto_create_once(
    s0: TopicConfigManager,
    s1: TopicConfigManager,
    s2: TopicConfigManager,
    topic: Seq<char>,
    default_topic: Seq<char>,
    requested: i32,
    topic_sys_flag: u32,
    lock1: bool,
    lock2: bool,
    smv1: u64,
    smv2: u64,
    now1: u64,
    now2: u64,
    r1: Option<TopicConfigView>,
    r2: Option<TopicConfigView>,
)
    requires
        s0.create_on_send_post(&s1, topic, default_topic, requested, topic_sys_flag, lock1, smv1, now1, r1),
        s1.create_on_send_post(&s2, topic, default_topic, requested, topic_sys_flag, lock2, smv2, now2, r2),
        r1 is Some,
    ensures
        r2 == r1,
        s2.unchanged(&s1),
        s1.table() == s0.table().insert(topic, r1.unwrap()),
        s1.registrations().len() <= s0.registrations().len() + 1,
{
    if s0.table().contains_key(topic) {
        assert(s1.table() =~= s0.table().insert(topic, r1.unwrap()));
    }
}

/// The data version of an auto-create advances by one exactly when a topic
/// was made (a result for a topic the table lacked), and stays as it was on
/// every other outcome: a topic found, or a creation refused.
pub proof fn lemma_auto_create_version(
    before: TopicConfigManager,
    after: TopicConfigManager,
    topic: Seq<char>,
    default_topic: Seq<char>,
    requested: i32,
    topic_sys_flag: u32,
    creation_lock_acquired: bool,
    state_machine_version: u64,
    now: u64,
    r: Option<TopicConfigView>,
)
    requires
        before.version().counter < u64::MAX,
        before.create_on_send_post(
            &after,
            topic,
            default_topic,
            requested,
            topic_sys_flag,
            creation_lock_acquired,
            state_machine_version,
            now,
            r,
        ),
    ensures
        (r is Some && !before.table().contains_key(topic)) ==> after.version().counter
            == before.version().counter + 1,
        !(r is Some && !before.table().contains_key(topic)) ==> after.version()
            == before.version(),
{
}

/// The same for a creation that makes a given configuration unless the
/// topic is there: the sent-back and transaction-check creations.
pub proof fn lemma_create_if_absent_version(
    before: TopicConfigManager,
    after: TopicConfigManager,
    topic: Seq<char>,
    c: TopicConfigView,
    creation_lock_acquired: bool,
    state_machine_version: u64,
    now: u64,
    r: Option<TopicConfigView>,
)
    requires
        before.version().counter < u64::MAX,
        before.create_if_absent_post(&after, topic, c, creation_lock_acquired, state_machine_version, now, r),
    ensures
        (r is Some && !before.table().contains_key(topic)) ==> after.version().counter
            == before.version().counter + 1,
        !(r is Some && !before.table().contains_key(topic)) ==> after.version()
            == before.version(),
{
}

/// Bootstrap with auto-create and tracing off holds the unconditional system
/// topics (self-test, benchmark, cluster, broker, schedule, the transaction
/// half, op-half and check-max-time topics) and neither the auto-create
/// template nor the trace topic, where no configured name coincides with
/// either of those two.
pub proof fn lemma_bootstrap_without_auto_create_or_trace(cfg: BrokerConfig)
    requires
        !cfg.auto_create_topic_enable,
        !cfg.trace_topic_enable,
        forall|i: int|
            0 <= i < bootstrap_topics(cfg).len() ==> bootstrap_topics(cfg)[i].topic_name
                != AUTO_CREATE_TOPIC_KEY_TOPIC@ && bootstrap_topics(cfg)[i].topic_name
                != cfg.msg_trace_topic_name@,
    ensures
        ({
            let t = insert_all(Map::empty(), bootstrap_topics(cfg));
            &&& t.contains_key(RMQ_SYS_SELF_TEST_TOPIC@)
            &&& t.contains_key(RMQ_SYS_BENCHMARK_TOPIC@)
            &&& t.contains_key(cfg.broker_cluster_name@)
            &&& t.contains_key(cfg.broker_name@)
            &&& t.contains_key(RMQ_SYS_SCHEDULE_TOPIC@)
            &&& t.contains_key(RMQ_SYS_TRANS_HALF_TOPIC@)
            &&& t.contains_key(RMQ_SYS_TRANS_OP_HALF_TOPIC@)
            &&& t.contains_key(RMQ_SYS_TRANS_CHECK_MAX_TIME_TOPIC@)
            &&& !t.contains_key(AUTO_CREATE_TOPIC_KEY_TOPIC@)
            &&& !t.contains_key(cfg.msg_trace_topic_name@)
        }),
{
    let rs = bootstrap_topics(cfg);
    let e = Map::<Seq<char>, TopicConfigView>::empty();
    lemma_insert_all_dom(e, rs, RMQ_SYS_SELF_TEST_TOPIC@);
    assert(rs[0].topic_name == RMQ_SYS_SELF_TEST_TOPIC@);
    lemma_insert_all_dom(e, rs, RMQ_SYS_BENCHMARK_TOPIC@);
    assert(rs[1].topic_name == RMQ_SYS_BENCHMARK_TOPIC@);
    lemma_insert_all_dom(e, rs, cfg.broker_cluster_name@);
    assert(rs[2].topic_name == cfg.broker_cluster_name@);
    lemma_insert_all_dom(e, rs, cfg.broker_name@);
    assert(rs[3].topic_name == cfg.broker_name@);
    lemma_insert_all_dom(e, rs, RMQ_SYS_SCHEDULE_TOPIC@);
    assert(rs[5].topic_name == RMQ_SYS_SCHEDULE_TOPIC@);
    lemma_insert_all_dom(e, rs, RMQ_SYS_TRANS_HALF_TOPIC@);
    assert(rs[9].topic_name == RMQ_SYS_TRANS_HALF_TOPIC@);
    lemma_insert_all_dom(e, rs, RMQ_SYS_TRANS_OP_HALF_TOPIC@);
    assert(rs[10].topic_name == RMQ_SYS_TRANS_OP_HALF_TOPIC@);
    lemma_insert_all_dom(e, rs, RMQ_SYS_TRANS_CHECK_MAX_TIME_TOPIC@);
    assert(rs[11].topic_name == RMQ_SYS_TRANS_CHECK_MAX_TIME_TOPIC@);
    lemma_insert_all_dom(e, rs, AUTO_CREATE_TOPIC_KEY_TOPIC@);
    lemma_insert_all_dom(e, rs, cfg.msg_trace_topic_name@);
}

} // verus!
