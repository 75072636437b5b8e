//! The cache protocol: which commands are sent to the key-value store, under
//! which keys, and what its replies mean.
//!
//! The store is reached by the surrounding program. This module decides what
//! is asked and interprets what comes back.

use crate::info::find_value;
use crate::info::info_value;
use crate::info::parse_u32;
use crate::info::parsed_u32;
use crate::text::decimal;
use crate::text::decimal_string;
use vstd::prelude::*;
use vstd::string::*;

verus! {

/// Seconds after which a stored variant expires.
pub const TTL_SECONDS: u32 = 60 * 5;

/// A command of the key-value store.
#[derive(Debug, PartialEq, Eq)]
pub enum Command {
    /// `GET key`
    GetValue(String),
    /// `SET key value`
    SetValue(String, Vec<u8>),
    /// `EXPIRE key seconds`
    Expire(String, u32),
    /// `INFO`
    Info,
    /// `DBSIZE`
    DbSize,
    /// `KEYS pattern`
    Keys(String),
}

/// A command as a mathematical value.
pub ghost enum CommandModel {
    GetValue(Seq<char>),
    SetValue(Seq<char>, Seq<u8>),
    Expire(Seq<char>, nat),
    Info,
    DbSize,
    Keys(Seq<char>),
}

impl View for Command {
    type V = CommandModel;

    open spec fn view(&self) -> CommandModel {
        match self {
            Command::GetValue(key) => CommandModel::GetValue(key@),
            Command::SetValue(key, value) => CommandModel::SetValue(key@, value@),
            Command::Expire(key, seconds) => CommandModel::Expire(key@, *seconds as nat),
            Command::Info => CommandModel::Info,
            Command::DbSize => CommandModel::DbSize,
            Command::Keys(pattern) => CommandModel::Keys(pattern@),
        }
    }
}

/// The commands as mathematical values.
pub open spec fn commands_of(commands: Seq<Command>) -> Seq<CommandModel> {
    commands.map_values(|command: Command| command@)
}

/// A failure reported by the key-value store or on the way to it.
#[derive(Debug, PartialEq, Eq)]
pub struct CacheError {
    pub message: String,
}

/// The fingerprint of a variant: identifier, hash, extension and size, joined
/// by colons.
pub open spec fn cache_key(id: Seq<char>, hash: Seq<char>, ext: Seq<char>, size: nat) -> Seq<char> {
    id + ":"@ + hash + ":"@ + ext + ":"@ + decimal(size)
}

/// What a `GET` reply yields: its blob, unless the reply is a failure or the
/// blob is empty.
pub open spec fn cached_blob(reply: Result<Vec<u8>, CacheError>) -> Option<Seq<u8>> {
    match reply {
        Ok(blob) => present(blob@),
        Err(_) => None,
    }
}

/// A blob counts as present unless it is empty.
pub open spec fn present(blob: Seq<u8>) -> Option<Seq<u8>> {
    if blob.len() > 0 {
        Some(blob)
    } else {
        None
    }
}

/// An entry of the key-value store as the protocol takes it to be: a value,
/// and the time at which it expires, if it does.
pub ghost struct Entry {
    pub value: Seq<u8>,
    pub expires_at: Option<nat>,
}

/// The store after a command at time `now`, as the protocol takes it to
/// behave: a write replaces the entry and clears its expiry; an expiry is
/// counted from `now`; the other commands change nothing.
pub open spec fn store_after(store: Map<Seq<char>, Entry>, command: CommandModel, now: nat) -> Map<
    Seq<char>,
    Entry,
> {
    match command {
        CommandModel::SetValue(key, value) => store.insert(key, Entry { value, expires_at: None }),
        CommandModel::Expire(key, seconds) => if store.contains_key(key) {
            store.insert(key, Entry { value: store[key].value, expires_at: Some(now + seconds) })
        } else {
            store
        },
        _ => store,
    }
}

/// The store after a run of commands, all at time `now`.
pub open spec fn store_after_all(
    store: Map<Seq<char>, Entry>,
    commands: Seq<CommandModel>,
    now: nat,
) -> Map<Seq<char>, Entry>
    decreases commands.len(),
{
    if commands.len() == 0 {
        store
    } else {
        store_after(store_after_all(store, commands.drop_last(), now), commands.last(), now)
    }
}

/// The blob that a lookup at time `now` finds: the value of a live entry,
/// and the empty blob otherwise.
pub open spec fn store_lookup(store: Map<Seq<char>, Entry>, key: Seq<char>, now: nat) -> Seq<u8> {
    if store.contains_key(key) && (store[key].expires_at matches Some(end) ==> now < end) {
        store[key].value
    } else {
        Seq::empty()
    }
}

/// A value stored by [`Cache::put`] is found again under its key for as
/// long as its time to live lasts.
pub proof fn lemma_put_then_lookup(
    store: Map<Seq<char>, Entry>,
    key: Seq<char>,
    value: Seq<u8>,
    stored_at: nat,
    asked_at: nat,
)
    requires
        stored_at <= asked_at < stored_at + TTL_SECONDS,
    ensures
        store_lookup(store_after_all(store, put_commands(key, value), stored_at), key, asked_at)
            == value,
{
    let commands = put_commands(key, value);
    reveal_with_fuel(store_after_all, 3);
    assert(commands.drop_last() =~= seq![CommandModel::SetValue(key, value)]);
    assert(commands.drop_last().drop_last() =~= Seq::<CommandModel>::empty());
    assert(commands.last() == CommandModel::Expire(key, TTL_SECONDS as nat));
    assert(commands.drop_last().last() == CommandModel::SetValue(key, value));
}

/// What the sender of a run of commands does next.
#[derive(Debug, PartialEq, Eq)]
pub enum Progress {
    /// Send the command at this position of the run.
    Send(usize),
    /// Stop: the command just sent failed; its failure.
    Failed(CacheError),
    /// Stop: every command was sent and none failed.
    Done,
}

/// The start of a run of `count` commands: the first is sent, if there is
/// one.
pub open spec fn progress_at_start(count: nat) -> Progress {
    if count > 0 {
        Progress::Send(0)
    } else {
        Progress::Done
    }
}

/// What follows the reply to the command at position `answered` of a run
/// of `count` commands: a failure ends the run at once; otherwise the next
/// command is sent, if there is one.
pub open spec fn progress_after(count: nat, answered: nat, reply: Result<(), CacheError>) -> Progress {
    match reply {
        Err(error) => Progress::Failed(error),
        Ok(_) => if answered + 1 < count {
            Progress::Send((answered + 1) as usize)
        } else {
            Progress::Done
        },
    }
}

/// The commands that store `value` under `key`: the write, then the expiry.
pub open spec fn put_commands(key: Seq<char>, value: Seq<u8>) -> Seq<CommandModel> {
    seq![CommandModel::SetValue(key, value), CommandModel::Expire(key, TTL_SECONDS as nat)]
}

/// What the health endpoint reports about the key-value store.
#[derive(Debug, PartialEq, Eq)]
pub struct Health {
    memory_usage: String,
    num_keys: u32,
    keys: Vec<String>,
    uptime_seconds: u32,
}

/// A health report as a mathematical value.
pub ghost struct HealthModel {
    pub memory_usage: Seq<char>,
    pub num_keys: nat,
    pub keys: Seq<Seq<char>>,
    pub uptime_seconds: nat,
}

/// The texts as sequences of characters.
pub open spec fn texts_of(texts: Seq<String>) -> Seq<Seq<char>> {
    texts.map_values(|text: String| text@)
}

impl View for Health {
    type V = HealthModel;

    closed spec fn view(&self) -> HealthModel {
        HealthModel {
            memory_usage: self.memory_usage@,
            num_keys: self.num_keys as nat,
            keys: texts_of(self.keys@),
            uptime_seconds: self.uptime_seconds as nat,
        }
    }
}

impl Health {
    /// The store's own rendering of the memory it uses.
    pub fn memory_usage(&self) -> (text: &String)
        ensures
            text@ == self@.memory_usage,
    {
        &self.memory_usage
    }

    /// The number of keys in the store.
    pub fn num_keys(&self) -> (count: u32)
        ensures
            count == self@.num_keys,
    {
        self.num_keys
    }

    /// The keys in the store.
    pub fn keys(&self) -> (keys: &Vec<String>)
        ensures
            texts_of(keys@) == self@.keys,
    {
        &self.keys
    }

    /// Seconds since the store started.
    pub fn uptime_seconds(&self) -> (seconds: u32)
        ensures
            seconds == self@.uptime_seconds,
    {
        self.uptime_seconds
    }
}

/// The report that follows from the store's replies: the memory figure is
/// the value of `used_memory_human:`, or `(error)` if the report has no such
/// line; the uptime is the number under `uptime_in_seconds:`, or 0 if there
/// is no such line or it is no number.
pub open spec fn health_report(info: Seq<char>, num_keys: nat, keys: Seq<Seq<char>>) -> HealthModel {
    HealthModel {
        memory_usage: match info_value(info, "used_memory_human:"@) {
            Some(value) => value,
            None => "(error)"@,
        },
        num_keys,
        keys,
        uptime_seconds: match info_value(info, "uptime_in_seconds:"@) {
            Some(value) => match parsed_u32(value) {
                Some(seconds) => seconds as nat,
                None => 0,
            },
            None => 0,
        },
    }
}

/// The commands of a health check: `INFO` and `DBSIZE`, sent together, then
/// `KEYS *`.
pub open spec fn health_commands() -> Seq<CommandModel> {
    seq![CommandModel::Info, CommandModel::DbSize, CommandModel::Keys("*"@)]
}

/// The typed face of the key-value store.
#[derive(Debug, Clone, Copy, PartialEq, Eq)]
pub struct Cache;

impl Default for Cache {
    fn default() -> (cache: Self) {
        Cache::new()
    }
}

impl Cache {
    pub fn new() -> (cache: Self) {
        Cache {  }
    }

    /// Derives the key under which a variant is cached.
    pub fn key(&self, id: &str, image_hash: &str, ext: &str, size: u32) -> (key: String)
        ensures
            key@ == cache_key(id@, image_hash@, ext@, size as nat),
    {
        let mut key = String::from_str(id);
        key.append(":");
        key.append(image_hash);
        key.append(":");
        key.append(ext);
        key.append(":");
        let digits = decimal_string(size);
        key.append(digits.as_str());
        key
    }

    /// The command that looks a key up.
    pub fn lookup(&self, key: &str) -> (command: Command)
        ensures
            command@ == CommandModel::GetValue(key@),
    {
        Command::GetValue(String::from_str(key))
    }

    /// Interprets the reply to a lookup. An empty blob and a failure both
    /// count as absent.
    pub fn get(&self, reply: Result<Vec<u8>, CacheError>) -> (found: Option<Vec<u8>>)
        ensures
            match found {
                Some(blob) => cached_blob(reply) == Some(blob@),
                None => cached_blob(reply) is None,
            },
    {
        match reply {
            Ok(blob) => {
                if blob.len() > 0 {
                    Some(blob)
                } else {
                    None
                }
            },
            Err(_) => None,
        }
    }

    /// The commands that store a variant: `SET`, then `EXPIRE` with the
    /// time to live. They are sent in this order, as [`Cache::begin`] and
    /// [`Cache::proceed`] say.
    pub fn put(&self, key: &str, value: &Vec<u8>) -> (commands: Vec<Command>)
        ensures
            commands_of(commands@) == put_commands(key@, value@),
    {
        let mut commands: Vec<Command> = Vec::new();
        commands.push(Command::SetValue(String::from_str(key), value.clone()));
        commands.push(Command::Expire(String::from_str(key), TTL_SECONDS));
        assert(commands_of(commands@) =~= put_commands(key@, value@));
        commands
    }

    /// Starts a run of commands: says which one is sent first.
    pub fn begin(&self, commands: &Vec<Command>) -> (progress: Progress)
        ensures
            progress == progress_at_start(commands@.len()),
    {
        if commands.len() > 0 {
            Progress::Send(0)
        } else {
            Progress::Done
        }
    }

    /// Takes the reply to the command at position `answered` of a run and
    /// says what follows: the first failure ends the run.
    pub fn proceed(&self, commands: &Vec<Command>, answered: usize, reply: Result<(), CacheError>) -> (progress:
        Progress)
        ensures
            progress == progress_after(commands@.len(), answered as nat, reply),
    {
        match reply {
            Err(error) => Progress::Failed(error),
            Ok(_) => {
                if commands.len() > 0 && answered < commands.len() - 1 {
                    Progress::Send(answered + 1)
                } else {
                    Progress::Done
                }
            },
        }
    }

    /// The commands of a health check. The first two are sent together; the
    /// third walks every key and is for the health endpoint only.
    pub fn health(&self) -> (commands: Vec<Command>)
        ensures
            commands_of(commands@) == health_commands(),
    {
        let mut commands: Vec<Command> = Vec::new();
        commands.push(Command::Info);
        commands.push(Command::DbSize);
        commands.push(Command::Keys(String::from_str("*")));
        assert(commands_of(commands@) =~= health_commands());
        commands
    }

    /// Builds the health report from the replies to the health commands.
    pub fn get_redis_health(&self, info: &str, num_keys: u32, keys: Vec<String>) -> (health: Health)
        ensures
            health@ == health_report(info@, num_keys as nat, texts_of(keys@)),
    {
        let memory_usage = match find_value(info, "used_memory_human:") {
            Some(value) => value,
            None => String::from_str("(error)"),
        };
        let uptime_seconds = match find_value(info, "uptime_in_seconds:") {
            Some(value) => match parse_u32(value.as_str()) {
                Some(seconds) => seconds,
                None => 0,
            },
            None => 0,
        };
        Health { memory_usage, num_keys, keys, uptime_seconds }
    }
}

} // verus!
