//! Arguments of the name-server admin commands that delete a key-value
//! config and wipe a broker's write permission.
use vstd::prelude::*;

verus! {

/// What `str::trim` returns: the string without leading and trailing
/// whitespace.
pub uninterp spec fn trimmed(s: Seq<char>) -> Seq<char>;

/// Relies on `str::trim`: the result is the argument without its leading and
/// trailing whitespace, so a part of it.
#[verifier::external_body]
fn trim(s: &str) -> (r: &str)
    ensures
        r@ == trimmed(s@),
        r@.len() <= s@.len(),
{
    s.trim()
}

pub struct DeleteKvConfigCommand {
    namespace: String,
    key: String,
}

impl DeleteKvConfigCommand {
    pub fn new(namespace: String, key: String) -> (r: DeleteKvConfigCommand)
        ensures
            r.namespace() == namespace@,
            r.key() == key@,
    {
        DeleteKvConfigCommand { namespace, key }
    }

    pub closed spec fn namespace(&self) -> Seq<char> {
        self.namespace@
    }

    pub closed spec fn key(&self) -> Seq<char> {
        self.key@
    }

    /// The namespace the key is deleted from.
    pub fn get_namespace(&self) -> (r: &str)
        ensures
            r@ == self.namespace(),
    {
        self.namespace.as_str()
    }

    /// The key to delete.
    pub fn get_key(&self) -> (r: &str)
        ensures
            r@ == self.key(),
    {
        self.key.as_str()
    }
}

/// Options shared by the admin commands.
pub struct CommonArgs {
    /// Name server addresses, separated by `;`.
    pub namesrv_addr: Option<String>,
}

pub struct WipeWritePermSubCommand {
    common_args: CommonArgs,
    broker_name: String,
}

impl WipeWritePermSubCommand {
    pub fn new(common_args: CommonArgs, broker_name: String) -> (r: WipeWritePermSubCommand)
        ensures
            r.broker_name() == broker_name@,
            r.common_args() == common_args,
    {
        WipeWritePermSubCommand { common_args, broker_name }
    }

    pub closed spec fn broker_name(&self) -> Seq<char> {
        self.broker_name@
    }

    pub closed spec fn common_args(&self) -> CommonArgs {
        self.common_args
    }

    pub fn get_common_args(&self) -> (r: &CommonArgs)
        ensures
            *r == self.common_args(),
    {
        &self.common_args
    }

    /// The broker whose write permission is wiped, without surrounding
    /// whitespace.
    pub fn target_broker_name(&self) -> (r: String)
        ensures
            r@ == trimmed(self.broker_name()),
    {
        String::from_str(trim(self.broker_name.as_str()))
    }
}

} // verus!
