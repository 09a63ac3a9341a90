//! The bulletin board: what it answers to the commands of its users.

use mini_moka::sync::Cache;
use std::time::Instant;
use vstd::prelude::*;
use vstd::string::StringExecFns;

use crate::bbs::command::parsed;
use crate::bbs::command::Command;
use crate::bbs::command::CommandView;
use crate::bbs::sessions::cache_session;
use crate::bbs::sessions::cached_session;
use crate::bbs::sessions::new_sessions;
use crate::bbs::storage::Channel;
use crate::bbs::storage::ChannelId;
use crate::bbs::storage::ChannelMessage;
use crate::bbs::storage::ChannelMessageView;
use crate::bbs::storage::MessageId;
use crate::bbs::storage::Storage;
use crate::bbs::storage::StorageError;
use crate::bbs::storage::User;
use crate::bbs::storage::UserId;
use crate::bbs::storage::UserPkHash;
use crate::bbs::storage::UserView;
use crate::codec::now;
use crate::text::decimal;
use crate::text::join_by;
use crate::text::joined_by;
use crate::text::texts;
use crate::text::to_decimal;

verus! {

/// Number of sessions that the board remembers at most.
pub const SESSION_CAPACITY: u64 = 1024;

/// Number of seconds for which the board remembers a session.
pub const SESSION_SECS: u64 = 3600;

/// The unit by which the age of a post is shown.
pub const DAY: u64 = 86_400;

/// The channel that a new session stands in.
pub const FIRST_CHANNEL: ChannelId = 0;

/// What the board says when it is asked for help, or does not understand.
pub fn help() -> (text: &'static str)
    ensures
        text@ == "h(elp) | c(hannels)  | j(oin) ch | p(ost) msg  | l(list)"@,
{
    "h(elp) | c(hannels)  | j(oin) ch | p(ost) msg  | l(list)"
}

/// What the board says when it has done what it was asked.
pub fn ack() -> (text: &'static str)
    ensures
        text@ == "Ack"@,
{
    "Ack"
}

/// What the board remembers of a user between two commands.
#[derive(Clone, Copy, Debug)]
pub struct Session {
    pub created: Instant,
    pub user_id: UserId,
    pub current_channel: ChannelId,
}

impl Session {
    /// The session of a user who has joined no channel yet.
    pub fn new(user_id: UserId) -> (session: Self)
        ensures
            session.user_id == user_id,
            session.current_channel == FIRST_CHANNEL,
    {
        Session { created: now(), user_id, current_channel: FIRST_CHANNEL }
    }
}

/// Why the board could not answer.
#[derive(Clone, Debug, PartialEq, Eq)]
pub enum BbsError {
    /// The store failed.
    Storage(StorageError),
    /// No channel carries the name that the user asked to join.
    ChannelNotFound,
}

impl BbsError {
    /// The error in words.
    pub fn message(&self) -> (text: String)
        ensures
            text@ == match *self {
                BbsError::Storage(error) => error.words(),
                BbsError::ChannelNotFound => "Channel not found"@,
            },
    {
        match self {
            BbsError::Storage(error) => error.message(),
            BbsError::ChannelNotFound => String::from_str("Channel not found"),
        }
    }
}

/// The record of a user who writes for the first time. The store chooses the
/// identifier.
pub fn new_user(pk_hash: UserPkHash, short_name: &str) -> (user: User)
    ensures
        user@ == (UserView { uid: 0, pk_hash: pk_hash@, short_name: short_name@, last_ts: 0 }),
{
    User { uid: 0, short_name: short_name.to_owned(), pk_hash, last_ts: 0 }
}

/// The names of a list of channels.
pub open spec fn channel_names(channels: Seq<Channel>) -> Seq<Seq<char>> {
    channels.map_values(|channel: Channel| channel.name@)
}

/// The answer to `channels`: one line with the names of the channels,
/// separated by commas.
pub fn channels_reply(channels: &Vec<Channel>) -> (lines: Vec<String>)
    ensures
        texts(lines@) == seq![joined_by(channel_names(channels@), ","@)],
{
    let mut names: Vec<String> = Vec::new();
    let mut i: usize = 0;
    assert(texts(names@) =~= channel_names(channels@).take(0));
    while i < channels.len()
        invariant
            i <= channels.len(),
            texts(names@) == channel_names(channels@).take(i as int),
        decreases channels.len() - i,
    {
        let ghost before = texts(names@);
        names.push(channels[i].name.clone());
        assert(texts(names@) =~= before.push(channels@[i as int].name@));
        i = i + 1;
        assert(channel_names(channels@).take(i as int) =~= before.push(channels@[i - 1].name@));
    }
    assert(channel_names(channels@).take(i as int) =~= channel_names(channels@));
    let line = join_by(&names, 0, ",");
    assert(texts(names@).skip(0) =~= texts(names@));
    let mut lines: Vec<String> = Vec::new();
    lines.push(line);
    assert(texts(lines@) =~= seq![joined_by(channel_names(channels@), ","@)]);
    lines
}

/// The identifier of the first channel of a list that carries a name.
pub open spec fn first_named(channels: Seq<Channel>, name: Seq<char>) -> Option<ChannelId>
    decreases channels.len(),
{
    if channels.len() == 0 {
        None
    } else if channels[0].name@ == name {
        Some(channels[0].cid)
    } else {
        first_named(channels.drop_first(), name)
    }
}

/// Finds the channel that a user asks to join.
pub fn find_channel(channels: &Vec<Channel>, name: &str) -> (found: Option<ChannelId>)
    ensures
        found == first_named(channels@, name@),
{
    let wanted = name.to_owned();
    let mut i: usize = 0;
    assert(channels@.skip(0) =~= channels@);
    while i < channels.len()
        invariant
            i <= channels.len(),
            wanted@ == name@,
            first_named(channels@, name@) == first_named(channels@.skip(i as int), name@),
        decreases channels.len() - i,
    {
        if channels[i].name == wanted {
            return Some(channels[i].cid);
        }
        assert(channels@.skip(i as int).drop_first() =~= channels@.skip(i + 1));
        i = i + 1;
    }
    None
}

/// The post that `post` makes: in the channel that the session stands in,
/// at the time given, signed with the short name of the user.
pub fn new_post(session: &Session, user: &User, msg: &str, now: u64) -> (post: ChannelMessage)
    ensures
        post@ == (ChannelMessageView {
            cid_ts: (session.current_channel, now),
            uid: session.user_id,
            text: user.short_name@ + ": "@ + msg@,
        }),
{
    let mut text = user.short_name.clone();
    text.append(": ");
    text.append(msg);
    ChannelMessage { cid_ts: (session.current_channel, now), uid: session.user_id, text }
}

/// The line that shows a post in a listing: its age in whole days, and its
/// text.
pub open spec fn post_line(post: ChannelMessageView, now: u64) -> Seq<char> {
    decimal(((now - post.cid_ts.1) / (DAY as int)) as nat) + "d, "@ + post.text
}

/// The answer to `list`: the number of posts, then one line for each.
pub open spec fn listing(posts: Seq<ChannelMessage>, now: u64) -> Seq<Seq<char>> {
    seq![decimal(posts.len()) + " Messages."@] + posts.map_values(
        |post: ChannelMessage| post_line(post@, now),
    )
}

/// Writes the answer to `list`.
pub fn list_reply(posts: &Vec<ChannelMessage>, now: u64) -> (lines: Vec<String>)
    requires
        forall|i: int| 0 <= i < posts@.len() ==> (#[trigger] posts@[i]).cid_ts.1 <= now,
    ensures
        texts(lines@) == listing(posts@, now),
{
    let mut lines: Vec<String> = Vec::new();
    let mut head = to_decimal(posts.len() as u64);
    head.append(" Messages.");
    lines.push(head);
    let ghost tail = posts@.map_values(|post: ChannelMessage| post_line(post@, now));
    assert(texts(lines@) =~= seq![decimal(posts@.len()) + " Messages."@] + tail.take(0));
    let mut i: usize = 0;
    while i < posts.len()
        invariant
            i <= posts.len(),
            tail == posts@.map_values(|post: ChannelMessage| post_line(post@, now)),
            forall|i: int| 0 <= i < posts@.len() ==> (#[trigger] posts@[i]).cid_ts.1 <= now,
            texts(lines@) == seq![decimal(posts@.len()) + " Messages."@] + tail.take(i as int),
        decreases posts.len() - i,
    {
        let post = &posts[i];
        let days = (now - post.cid_ts.1) / DAY;
        let mut line = to_decimal(days);
        line.append("d, ");
        line.append(post.text.as_str());
        assert(line@ == post_line(post@, now));
        let ghost before = texts(lines@);
        lines.push(line);
        assert(texts(lines@) =~= before.push(post_line(post@, now)));
        i = i + 1;
        assert(tail.take(i as int) =~= tail.take(i - 1).push(post_line(post@, now)));
        assert(texts(lines@) =~= seq![decimal(posts@.len()) + " Messages."@] + tail.take(i as int));
    }
    assert(tail.take(i as int) =~= tail);
    lines
}

/// What a command asks of the board. A text that is no command asks for
/// help.
pub open spec fn asked(command: Seq<char>) -> CommandView {
    match parsed(command) {
        Ok(request) => request,
        Err(_) => CommandView::Help,
    }
}

/// What the board says when it is asked for help, or does not understand.
pub open spec fn help_text() -> Seq<char> {
    "h(elp) | c(hannels)  | j(oin) ch | p(ost) msg  | l(list)"@
}

/// An answer, or the reason for none, as a mathematical value.
pub open spec fn reply(result: Result<Vec<String>, BbsError>) -> Result<Seq<Seq<char>>, BbsError> {
    match result {
        Ok(lines) => Ok(texts(lines@)),
        Err(error) => Err(error),
    }
}

/// What `init` comes to on a store that goes from `before` to `after`. The
/// store is asked for its channels. Where it has some, nothing more happens.
/// Where it has none, it is asked to open `news` and then `general`. The
/// first refusal of the store ends the call and is its error.
pub open spec fn init_outcome<S: Storage>(before: S, after: S, result: Result<(), BbsError>) -> bool {
    exists|listing: Result<Vec<Channel>, StorageError>| #[trigger]
        before.get_channels_spec(listing) && match listing {
            Err(error) => after == before && result == Err::<(), BbsError>(
                BbsError::Storage(error),
            ),
            Ok(channels) => if channels@.len() > 0 {
                after == before && result == Ok::<(), BbsError>(())
            } else {
                exists|between: S, news: Result<ChannelId, StorageError>| #[trigger]
                    before.add_channel_spec(&between, "news"@, news) && match news {
                        Err(error) => after == between && result == Err::<(), BbsError>(
                            BbsError::Storage(error),
                        ),
                        Ok(_) => exists|general: Result<ChannelId, StorageError>| #[trigger]
                            between.add_channel_spec(&after, "general"@, general)
                                && result == match general {
                                Err(error) => Err::<(), BbsError>(BbsError::Storage(error)),
                                Ok(_) => Ok::<(), BbsError>(()),
                            },
                    }
            },
        }
}

/// Whether a result is a session of the user that stands in the first
/// channel.
pub open spec fn is_new_session(result: Result<Session, BbsError>, user_id: UserId) -> bool {
    result matches Ok(session) && session.user_id == user_id && session.current_channel
        == FIRST_CHANNEL
}

/// What opening a session comes to on a store that goes from `before` to
/// `after`. A remembered session is taken as it is. Else the store is asked
/// for the user with the key hash; where it knows none, it is asked to add
/// the user under the short name. The new session is for that user and
/// stands in the first channel.
pub open spec fn session_outcome<S: Storage>(
    before: S,
    after: S,
    remembered: Option<Session>,
    user_pk_hash: UserPkHash,
    short_name: Seq<char>,
    result: Result<Session, BbsError>,
) -> bool {
    match remembered {
        Some(session) => after == before && result == Ok::<Session, BbsError>(session),
        None => exists|found: Result<User, StorageError>| #[trigger]
            before.get_user_by_pkhash_spec(user_pk_hash, found) && match found {
                Ok(user) => after == before && is_new_session(result, user.uid),
                Err(_) => exists|user: User, added: Result<UserId, StorageError>|
                    user@ == (UserView {
                        uid: 0,
                        pk_hash: user_pk_hash@,
                        short_name,
                        last_ts: 0,
                    }) && #[trigger] before.add_user_spec(&after, user, added) && match added {
                        Ok(uid) => is_new_session(result, uid),
                        Err(error) => result == Err::<Session, BbsError>(BbsError::Storage(error)),
                    },
            },
    }
}

/// What `channels` comes to: the names that the store lists, on one line.
pub open spec fn channels_outcome<S: Storage>(
    store: S,
    result: Result<Seq<Seq<char>>, BbsError>,
) -> bool {
    exists|listing: Result<Vec<Channel>, StorageError>| #[trigger]
        store.get_channels_spec(listing) && result == match listing {
            Ok(channels) => Ok::<Seq<Seq<char>>, BbsError>(
                seq![joined_by(channel_names(channels@), ","@)],
            ),
            Err(error) => Err::<Seq<Seq<char>>, BbsError>(BbsError::Storage(error)),
        }
}

/// What `join` comes to: an acknowledgement where the store lists a channel
/// of the name, an error where it lists none.
pub open spec fn join_outcome<S: Storage>(
    store: S,
    ch: Seq<char>,
    result: Result<Seq<Seq<char>>, BbsError>,
) -> bool {
    exists|listing: Result<Vec<Channel>, StorageError>| #[trigger]
        store.get_channels_spec(listing) && result == match listing {
            Ok(channels) => if first_named(channels@, ch) is Some {
                Ok::<Seq<Seq<char>>, BbsError>(seq!["Ack"@])
            } else {
                Err::<Seq<Seq<char>>, BbsError>(BbsError::ChannelNotFound)
            },
            Err(error) => Err::<Seq<Seq<char>>, BbsError>(BbsError::Storage(error)),
        }
}

/// What `post` comes to: the store is asked to add the post, made in the
/// channel of the session at the time `now` and signed with the short name
/// of the user, and is acknowledged where it does.
pub open spec fn post_outcome<S: Storage>(
    before: S,
    after: S,
    session: Session,
    user: User,
    msg: Seq<char>,
    now: u64,
    result: Result<Seq<Seq<char>>, BbsError>,
) -> bool {
    exists|post: ChannelMessage, added: Result<MessageId, StorageError>|
        post@ == (ChannelMessageView {
            cid_ts: (session.current_channel, now),
            uid: session.user_id,
            text: user.short_name@ + ": "@ + msg,
        }) && #[trigger] before.add_message_spec(&after, post, added) && result == match added {
            Ok(_) => Ok::<Seq<Seq<char>>, BbsError>(seq!["Ack"@]),
            Err(error) => Err::<Seq<Seq<char>>, BbsError>(BbsError::Storage(error)),
        }
}

/// What `list` comes to: the store is asked for the posts of the session's
/// channel since the user last listed and before `now`; they are listed with
/// their ages, and the store is asked to note `now` as the time of the
/// user's last listing.
pub open spec fn list_outcome<S: Storage>(
    before: S,
    after: S,
    session: Session,
    user: User,
    now: u64,
    result: Result<Seq<Seq<char>>, BbsError>,
) -> bool {
    exists|got: Result<Vec<ChannelMessage>, StorageError>| #[trigger]
        before.get_messages_spec(session.current_channel, user.last_ts, now, got) && match got {
            Err(error) => after == before && result == Err::<Seq<Seq<char>>, BbsError>(
                BbsError::Storage(error),
            ),
            Ok(posts) => exists|updated: Result<u32, StorageError>| #[trigger]
                before.update_user_spec(&after, user.uid, User { last_ts: now, ..user }, updated)
                    && result == match updated {
                    Ok(_) => Ok::<Seq<Seq<char>>, BbsError>(listing(posts@, now)),
                    Err(error) => Err::<Seq<Seq<char>>, BbsError>(BbsError::Storage(error)),
                },
        }
}

/// What answering a command within a session comes to, on a store that goes
/// from `before` to `after`. The store is asked for the user of the session;
/// then the command decides. Only `post` and `list` change the store. The
/// first refusal of the store ends the call and is its error.
pub open spec fn answer_outcome<S: Storage>(
    before: S,
    after: S,
    session: Session,
    command: Seq<char>,
    now: u64,
    result: Result<Seq<Seq<char>>, BbsError>,
) -> bool {
    exists|found: Result<User, StorageError>| #[trigger]
        before.get_user_by_id_spec(session.user_id, found) && match found {
            Err(error) => after == before && result == Err::<Seq<Seq<char>>, BbsError>(
                BbsError::Storage(error),
            ),
            Ok(user) => match asked(command) {
                CommandView::Help => after == before && result == Ok::<Seq<Seq<char>>, BbsError>(
                    seq![help_text()],
                ),
                CommandView::Channels => after == before && channels_outcome(before, result),
                CommandView::Join { ch } => after == before && join_outcome(before, ch, result),
                CommandView::Post { msg } => post_outcome(
                    before,
                    after,
                    session,
                    user,
                    msg,
                    now,
                    result,
                ),
                CommandView::List => list_outcome(before, after, session, user, now, result),
            },
        }
}

/// What handling a command comes to, on a store that goes from `before` to
/// `after`: a session is opened, remembered or new, and the command is
/// answered within it.
pub open spec fn handle_outcome<S: Storage>(
    before: S,
    after: S,
    user_pk_hash: UserPkHash,
    short_name: Seq<char>,
    command: Seq<char>,
    now: u64,
    result: Result<Seq<Seq<char>>, BbsError>,
) -> bool {
    exists|remembered: Option<Session>, between: S, opened: Result<Session, BbsError>| #[trigger]
        session_outcome(before, between, remembered, user_pk_hash, short_name, opened)
            && match opened {
            Err(error) => after == between && result == Err::<Seq<Seq<char>>, BbsError>(error),
            Ok(session) => answer_outcome(between, after, session, command, now, result),
        }
}

/// A bulletin board over a store of records.
pub struct BBS<S: Storage> {
    storage: S,
    sessions: Cache<UserPkHash, Session>,
}

impl<S: Storage> BBS<S> {
    /// Whether the board's store is in order.
    pub closed spec fn wf(&self) -> bool {
        self.storage.valid()
    }

    /// The store of the board.
    pub closed spec fn store(&self) -> S {
        self.storage
    }

    /// A board over a store.
    pub fn new(storage: S) -> (board: Self)
        requires
            storage.valid(),
        ensures
            board.wf(),
            board.store() == storage,
    {
        BBS { storage, sessions: new_sessions(SESSION_CAPACITY, SESSION_SECS) }
    }

    /// The store of the board.
    pub fn storage(&self) -> (storage: &S)
        ensures
            *storage == self.store(),
            storage.valid() == self.wf(),
    {
        &self.storage
    }

    /// Opens the channels `news` and `general` where the store has no
    /// channel yet.
    pub fn init(&mut self) -> (result: Result<(), BbsError>)
        requires
            old(self).wf(),
        ensures
            final(self).wf(),
            init_outcome(old(self).store(), final(self).store(), result),
    {
        let ghost before = self.storage;
        let listing = self.storage.get_channels();
        let ghost listed = listing;
        let channels = match listing {
            Ok(channels) => channels,
            Err(error) => {
                assert(before.get_channels_spec(listed));
                return Err(BbsError::Storage(error));
            },
        };
        if channels.len() == 0 {
            let news = self.storage.add_channel("news");
            let ghost between = self.storage;
            assert(before.add_channel_spec(&between, "news"@, news));
            match news {
                Ok(_) => {},
                Err(error) => {
                    return Err(BbsError::Storage(error));
                },
            }
            let general = self.storage.add_channel("general");
            assert(between.add_channel_spec(&self.storage, "general"@, general));
            match general {
                Ok(_) => {},
                Err(error) => {
                    return Err(BbsError::Storage(error));
                },
            }
        }
        Ok(())
    }

    /// The session to go on with: the remembered one, or else a new one for
    /// the user with the key hash, who is added to the store if unknown.
    pub fn open_session(
        &mut self,
        remembered: Option<Session>,
        user_pk_hash: UserPkHash,
        short_name: &str,
    ) -> (result: Result<Session, BbsError>)
        requires
            old(self).wf(),
        ensures
            final(self).wf(),
            session_outcome(
                old(self).store(),
                final(self).store(),
                remembered,
                user_pk_hash,
                short_name@,
                result,
            ),
    {
        let ghost before = self.storage;
        match remembered {
            Some(session) => Ok(session),
            None => {
                let found = self.storage.get_user_by_pkhash(user_pk_hash);
                assert(before.get_user_by_pkhash_spec(user_pk_hash, found));
                let user_id = match found {
                    Ok(user) => user.uid,
                    Err(_) => {
                        let user = new_user(user_pk_hash, short_name);
                        let ghost added_user = user;
                        let added = self.storage.add_user(user);
                        assert(before.add_user_spec(&self.storage, added_user, added));
                        match added {
                            Ok(user_id) => user_id,
                            Err(error) => {
                                return Err(BbsError::Storage(error));
                            },
                        }
                    },
                };
                Ok(Session::new(user_id))
            },
        }
    }

    /// Answers a command within a session, at the time `now`. A session that
    /// joins a channel is remembered.
    pub fn answer(&mut self, user_pk_hash: UserPkHash, session: Session, command: &str, now: u64) -> (result:
        Result<Vec<String>, BbsError>)
        requires
            old(self).wf(),
        ensures
            final(self).wf(),
            answer_outcome(
                old(self).store(),
                final(self).store(),
                session,
                command@,
                now,
                reply(result),
            ),
    {
        let ghost before = self.storage;
        let ghost first = session;
        let mut session = session;
        let found = self.storage.get_user_by_id(session.user_id);
        assert(before.get_user_by_id_spec(first.user_id, found));
        let mut user = match found {
            Ok(user) => user,
            Err(error) => {
                return Err(BbsError::Storage(error));
            },
        };
        let ghost known = user;
        match Command::parse(command) {
            Ok(Command::Channels) => {
                let listing = self.storage.get_channels();
                assert(before.get_channels_spec(listing));
                match listing {
                    Ok(channels) => {
                        let lines = channels_reply(&channels);
                        assert(channels_outcome(before, reply(Ok(lines))));
                        Ok(lines)
                    },
                    Err(error) => {
                        assert(channels_outcome(before, reply(Err(BbsError::Storage(error)))));
                        Err(BbsError::Storage(error))
                    },
                }
            },
            Ok(Command::Join { ch }) => {
                let listing = self.storage.get_channels();
                assert(before.get_channels_spec(listing));
                match listing {
                    Ok(channels) => {
                        match find_channel(&channels, ch.as_str()) {
                            Some(cid) => {
                                session.current_channel = cid;
                                cache_session(&self.sessions, user_pk_hash, session);
                                let lines = one_line(ack());
                                assert(join_outcome(before, ch@, reply(Ok(lines))));
                                Ok(lines)
                            },
                            None => {
                                assert(join_outcome(
                                    before,
                                    ch@,
                                    reply(Err(BbsError::ChannelNotFound)),
                                ));
                                Err(BbsError::ChannelNotFound)
                            },
                        }
                    },
                    Err(error) => {
                        assert(join_outcome(before, ch@, reply(Err(BbsError::Storage(error)))));
                        Err(BbsError::Storage(error))
                    },
                }
            },
            Ok(Command::Post { msg }) => {
                let post = new_post(&session, &user, msg.as_str(), now);
                let ghost posted = post;
                let added = self.storage.add_message(post);
                assert(before.add_message_spec(&self.storage, posted, added));
                match added {
                    Ok(_) => {
                        let lines = one_line(ack());
                        assert(post_outcome(
                            before,
                            self.storage,
                            first,
                            known,
                            msg@,
                            now,
                            reply(Ok(lines)),
                        ));
                        Ok(lines)
                    },
                    Err(error) => {
                        assert(post_outcome(
                            before,
                            self.storage,
                            first,
                            known,
                            msg@,
                            now,
                            reply(Err(BbsError::Storage(error))),
                        ));
                        Err(BbsError::Storage(error))
                    },
                }
            },
            Ok(Command::List) => {
                let got = self.storage.get_messages(session.current_channel, user.last_ts, now);
                assert(before.get_messages_spec(first.current_channel, known.last_ts, now, got));
                let posts = match got {
                    Ok(posts) => posts,
                    Err(error) => {
                        assert(list_outcome(
                            before,
                            self.storage,
                            first,
                            known,
                            now,
                            reply(Err(BbsError::Storage(error))),
                        ));
                        return Err(BbsError::Storage(error));
                    },
                };
                let lines = list_reply(&posts, now);
                user.last_ts = now;
                let uid = user.uid;
                let ghost noted = user;
                let updated = self.storage.update_user(uid, user);
                assert(before.update_user_spec(&self.storage, known.uid, noted, updated));
                assert(noted == (User { last_ts: now, ..known }));
                match updated {
                    Ok(_) => {
                        assert(list_outcome(
                            before,
                            self.storage,
                            first,
                            known,
                            now,
                            reply(Ok(lines)),
                        ));
                        Ok(lines)
                    },
                    Err(error) => {
                        assert(list_outcome(
                            before,
                            self.storage,
                            first,
                            known,
                            now,
                            reply(Err(BbsError::Storage(error))),
                        ));
                        Err(BbsError::Storage(error))
                    },
                }
            },
            _ => Ok(one_line(help())),
        }
    }

    /// Answers the command of the user with a key hash, at the time `now`,
    /// given in milliseconds since 1970.
    pub fn handle(&mut self, user_pk_hash: [u8; 32], short_name: &str, command: &str, now: u64) -> (result:
        Result<Vec<String>, BbsError>)
        requires
            old(self).wf(),
        ensures
            final(self).wf(),
            handle_outcome(
                old(self).store(),
                final(self).store(),
                UserPkHash(user_pk_hash),
                short_name@,
                command@,
                now,
                reply(result),
            ),
    {
        let ghost before = self.storage;
        let user_pk_hash = UserPkHash(user_pk_hash);
        let remembered = cached_session(&self.sessions, &user_pk_hash);
        let opened = self.open_session(remembered, user_pk_hash, short_name);
        let ghost between = self.storage;
        assert(session_outcome(before, between, remembered, user_pk_hash, short_name@, opened));
        let session = match opened {
            Ok(session) => session,
            Err(error) => {
                return Err(error);
            },
        };
        self.answer(user_pk_hash, session, command, now)
    }
}

/// An answer of one line.
pub fn one_line(text: &str) -> (lines: Vec<String>)
    ensures
        texts(lines@) == seq![text@],
{
    let mut lines: Vec<String> = Vec::new();
    lines.push(String::from_str(text));
    assert(texts(lines@) =~= seq![text@]);
    lines
}

} // verus!
