//! One topic's configuration.
use vstd::prelude::*;

use crate::assoc::assoc_view;
use crate::perm::{PERM_READ, PERM_WRITE};

verus! {

/// Queue count of a topic made with no counts given.
pub const DEFAULT_QUEUE_NUMS: u32 = 16;

#[derive(Clone, Copy, Debug, PartialEq, Eq, Structural)]
pub enum TopicFilterType {
    SingleTag,
    MultiTag,
}

/// An attribute name paired with its value.
pub type Attribute = (String, String);

pub open spec fn attr_entries(s: Seq<Attribute>) -> Seq<(Seq<char>, Seq<char>)> {
    s.map_values(|a: Attribute| (a.0@, a.1@))
}

/// The attribute map that a list of attributes stands for.
pub open spec fn attr_map(s: Seq<Attribute>) -> Map<Seq<char>, Seq<char>> {
    assoc_view(attr_entries(s))
}

#[derive(Debug, PartialEq, Eq)]
pub struct TopicConfig {
    pub topic_name: String,
    pub read_queue_nums: u32,
    pub write_queue_nums: u32,
    pub perm: u32,
    pub topic_filter_type: TopicFilterType,
    pub topic_sys_flag: u32,
    pub order: bool,
    pub attributes: Vec<Attribute>,
}

pub struct TopicConfigView {
    pub topic_name: Seq<char>,
    pub read_queue_nums: u32,
    pub write_queue_nums: u32,
    pub perm: u32,
    pub topic_filter_type: TopicFilterType,
    pub topic_sys_flag: u32,
    pub order: bool,
    /// The attribute entries in the order they are held.
    pub attributes: Seq<(Seq<char>, Seq<char>)>,
}

impl TopicConfigView {
    /// The attribute map: a later entry overrides an earlier one.
    pub open spec fn attribute_map(self) -> Map<Seq<char>, Seq<char>> {
        assoc_view(self.attributes)
    }
}

impl View for TopicConfig {
    type V = TopicConfigView;

    open spec fn view(&self) -> TopicConfigView {
        TopicConfigView {
            topic_name: self.topic_name@,
            read_queue_nums: self.read_queue_nums,
            write_queue_nums: self.write_queue_nums,
            perm: self.perm,
            topic_filter_type: self.topic_filter_type,
            topic_sys_flag: self.topic_sys_flag,
            order: self.order,
            attributes: attr_entries(self.attributes@),
        }
    }
}

/// The view of a topic with the given counts and permission and every other
/// field at its default.
pub open spec fn plain_topic(name: Seq<char>, read: u32, write: u32, perm: u32) -> TopicConfigView {
    TopicConfigView {
        topic_name: name,
        read_queue_nums: read,
        write_queue_nums: write,
        perm,
        topic_filter_type: TopicFilterType::SingleTag,
        topic_sys_flag: 0,
        order: false,
        attributes: Seq::empty(),
    }
}

/// Copies a list of attributes entry by entry.
pub fn clone_attributes(a: &Vec<Attribute>) -> (r: Vec<Attribute>)
    ensures
        attr_entries(r@) == attr_entries(a@),
        attr_map(r@) == attr_map(a@),
{
    let mut r: Vec<Attribute> = Vec::new();
    let mut i: usize = 0;
    while i < a.len()
        invariant
            i <= a@.len(),
            r@.len() == i,
            attr_entries(r@) == attr_entries(a@.subrange(0, i as int)),
        decreases a@.len() - i,
    {
        let ghost prev = r@;
        let k = a[i].0.clone();
        let v = a[i].1.clone();
        r.push((k, v));
        assert forall|j: int| 0 <= j < r@.len() implies attr_entries(r@)[j] == attr_entries(
            a@.subrange(0, i + 1),
        )[j] by {
            if j < i {
                assert(attr_entries(prev)[j] == attr_entries(a@.subrange(0, i as int))[j]);
            }
        }
        assert(attr_entries(r@) =~= attr_entries(a@.subrange(0, i + 1)));
        i = i + 1;
    }
    assert(a@.subrange(0, a@.len() as int) == a@);
    r
}

impl TopicConfig {
    /// A topic with the default queue counts, readable and writable.
    pub fn new(topic_name: &str) -> (r: TopicConfig)
        ensures
            r@ == plain_topic(topic_name@, DEFAULT_QUEUE_NUMS, DEFAULT_QUEUE_NUMS, PERM_READ | PERM_WRITE),
    {
        Self::with_perm(topic_name, DEFAULT_QUEUE_NUMS, DEFAULT_QUEUE_NUMS, PERM_READ | PERM_WRITE)
    }

    /// A readable and writable topic with the given queue counts.
    pub fn with_queues(topic_name: &str, read_queue_nums: u32, write_queue_nums: u32) -> (r:
        TopicConfig)
        ensures
            r@ == plain_topic(topic_name@, read_queue_nums, write_queue_nums, PERM_READ | PERM_WRITE),
    {
        Self::with_perm(topic_name, read_queue_nums, write_queue_nums, PERM_READ | PERM_WRITE)
    }

    /// A topic with the given queue counts and permission.
    pub fn with_perm(topic_name: &str, read_queue_nums: u32, write_queue_nums: u32, perm: u32) -> (r:
        TopicConfig)
        ensures
            r@ == plain_topic(topic_name@, read_queue_nums, write_queue_nums, perm),
    {
        let r = TopicConfig {
            topic_name: String::from_str(topic_name),
            read_queue_nums,
            write_queue_nums,
            perm,
            topic_filter_type: TopicFilterType::SingleTag,
            topic_sys_flag: 0,
            order: false,
            attributes: Vec::new(),
        };
        assert(attr_entries(r.attributes@) =~= Seq::empty());
        r
    }

    pub fn topic_name(&self) -> (r: &str)
        ensures
            r@ == self.topic_name@,
    {
        self.topic_name.as_str()
    }
}

impl Clone for TopicConfig {
    fn clone(&self) -> (r: TopicConfig)
        ensures
            r@ == self@,
    {
        TopicConfig {
            topic_name: self.topic_name.clone(),
            read_queue_nums: self.read_queue_nums,
            write_queue_nums: self.write_queue_nums,
            perm: self.perm,
            topic_filter_type: self.topic_filter_type,
            topic_sys_flag: self.topic_sys_flag,
            order: self.order,
            attributes: clone_attributes(&self.attributes),
        }
    }
}

} // verus!
