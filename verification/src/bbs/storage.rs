//! The bulletin board's records, and a store that keeps them in memory.

use std::collections::HashMap;
use vstd::prelude::*;
use vstd::std_specs::hash::group_hash_axioms;
use vstd::std_specs::iter::IteratorSpec;
use vstd::string::StringExecFns;

verus! {

pub type MessageId = u32;

pub type ChannelId = u32;

pub type UserId = u32;

/// Hash of a user's public key.
#[derive(Clone, Copy, Debug, PartialEq, Eq, Hash)]
pub struct UserPkHash(pub [u8; 32]);

impl View for UserPkHash {
    type V = Seq<u8>;

    open spec fn view(&self) -> Seq<u8> {
        self.0@
    }
}

/// A user of the bulletin board.
#[derive(Debug)]
pub struct User {
    pub uid: UserId,
    pub pk_hash: UserPkHash,
    pub short_name: String,
    /// When the user last listed messages.
    pub last_ts: u64,
}

/// Mathematical value of a [`User`].
pub struct UserView {
    pub uid: UserId,
    pub pk_hash: Seq<u8>,
    pub short_name: Seq<char>,
    pub last_ts: u64,
}

impl View for User {
    type V = UserView;

    open spec fn view(&self) -> UserView {
        UserView {
            uid: self.uid,
            pk_hash: self.pk_hash@,
            short_name: self.short_name@,
            last_ts: self.last_ts,
        }
    }
}

impl Clone for User {
    fn clone(&self) -> (copy: Self)
        ensures
            copy == *self,
    {
        User {
            uid: self.uid,
            pk_hash: self.pk_hash,
            short_name: self.short_name.clone(),
            last_ts: self.last_ts,
        }
    }
}

/// A channel of the bulletin board.
#[derive(Debug)]
pub struct Channel {
    pub cid: ChannelId,
    pub name: String,
}

/// Mathematical value of a [`Channel`].
pub struct ChannelView {
    pub cid: ChannelId,
    pub name: Seq<char>,
}

impl View for Channel {
    type V = ChannelView;

    open spec fn view(&self) -> ChannelView {
        ChannelView { cid: self.cid, name: self.name@ }
    }
}

impl Clone for Channel {
    fn clone(&self) -> (copy: Self)
        ensures
            copy == *self,
    {
        Channel { cid: self.cid, name: self.name.clone() }
    }
}

/// A post in a channel.
#[derive(Debug)]
pub struct ChannelMessage {
    /// The channel posted to, and when.
    pub cid_ts: (ChannelId, u64),
    pub uid: UserId,
    pub text: String,
}

/// Mathematical value of a [`ChannelMessage`].
pub struct ChannelMessageView {
    pub cid_ts: (ChannelId, u64),
    pub uid: UserId,
    pub text: Seq<char>,
}

impl View for ChannelMessage {
    type V = ChannelMessageView;

    open spec fn view(&self) -> ChannelMessageView {
        ChannelMessageView { cid_ts: self.cid_ts, uid: self.uid, text: self.text@ }
    }
}

impl Clone for ChannelMessage {
    fn clone(&self) -> (copy: Self)
        ensures
            copy == *self,
    {
        ChannelMessage { cid_ts: self.cid_ts, uid: self.uid, text: self.text.clone() }
    }
}

/// Why the store could not do what it was asked.
#[derive(Clone, Debug, PartialEq, Eq)]
pub enum StorageError {
    /// No such user.
    UserNotFound,
    /// No such channel.
    ChannelNotFound,
    /// Every identifier of the kind asked for has been given out.
    OutOfIds,
    /// What holds the records failed; its own words say how.
    Backend(String),
}

impl StorageError {
    /// The error in words. A failure of what holds the records is told in
    /// its own words.
    pub open spec fn words(self) -> Seq<char> {
        match self {
            StorageError::UserNotFound => "User not found"@,
            StorageError::ChannelNotFound => "Channel not found"@,
            StorageError::OutOfIds => "Out of identifiers"@,
            StorageError::Backend(words) => words@,
        }
    }

    /// The error in words.
    pub fn message(&self) -> (text: String)
        ensures
            text@ == self.words(),
    {
        match self {
            StorageError::UserNotFound => String::from_str("User not found"),
            StorageError::ChannelNotFound => String::from_str("Channel not found"),
            StorageError::OutOfIds => String::from_str("Out of identifiers"),
            StorageError::Backend(words) => words.clone(),
        }
    }
}

/// Mathematical value of a store.
pub struct StoreView {
    /// Names of the channels by their identifiers.
    pub channels: Map<ChannelId, Seq<char>>,
    /// The posts of each channel with their identifiers, oldest first.
    pub messages: Map<ChannelId, Seq<(MessageId, ChannelMessageView)>>,
    /// The users by their identifiers.
    pub users: Map<UserId, UserView>,
    /// The user last stored with each key hash.
    pub users_by_pk: Map<Seq<u8>, UserId>,
    /// The identifiers that the next channel, post and user get.
    pub next_cid: ChannelId,
    pub next_mid: MessageId,
    pub next_uid: UserId,
}

/// The store that holds nothing. Identifiers are given out from 1.
pub open spec fn empty_store() -> StoreView {
    StoreView {
        channels: Map::empty(),
        messages: Map::empty(),
        users: Map::empty(),
        users_by_pk: Map::empty(),
        next_cid: 1,
        next_mid: 1,
        next_uid: 1,
    }
}

/// The posts of a list that were made from `from_ts` to `to_ts`, both
/// included, in the order of the list.
pub open spec fn in_window(
    posts: Seq<(MessageId, ChannelMessageView)>,
    from_ts: u64,
    to_ts: u64,
) -> Seq<ChannelMessageView>
    decreases posts.len(),
{
    if posts.len() == 0 {
        Seq::empty()
    } else {
        let last = posts.last().1;
        let before = in_window(posts.drop_last(), from_ts, to_ts);
        if from_ts <= last.cid_ts.1 <= to_ts {
            before.push(last)
        } else {
            before
        }
    }
}

/// The posts of a channel; none where nothing was posted to it.
pub open spec fn posts_of(store: StoreView, channel: ChannelId) -> Seq<
    (MessageId, ChannelMessageView),
> {
    if store.messages.contains_key(channel) {
        store.messages[channel]
    } else {
        Seq::empty()
    }
}

/// What a request for a new identifier comes to: the next one, unless the
/// last one has been given out.
pub open spec fn given(next: u32) -> Result<u32, StorageError> {
    if next == u32::MAX {
        Err(StorageError::OutOfIds)
    } else {
        Ok(next)
    }
}

/// The store after a channel was opened under the next identifier.
pub open spec fn with_channel(store: StoreView, name: Seq<char>) -> StoreView {
    StoreView {
        channels: store.channels.insert(store.next_cid, name),
        next_cid: (store.next_cid + 1) as u32,
        ..store
    }
}

/// The store after a channel was closed and its posts were dropped.
pub open spec fn without_channel(store: StoreView, cid: ChannelId) -> StoreView {
    StoreView {
        channels: store.channels.remove(cid),
        messages: store.messages.remove(cid),
        ..store
    }
}

/// The store after a post was added to the end of a channel's list, under
/// the next identifier.
pub open spec fn with_post(store: StoreView, channel: ChannelId, post: ChannelMessageView) -> StoreView {
    StoreView {
        messages: store.messages.insert(
            channel,
            posts_of(store, channel).push((store.next_mid, post)),
        ),
        next_mid: (store.next_mid + 1) as u32,
        ..store
    }
}

/// The store after a record was stored under the identifier that it
/// carries, and indexed by its key hash.
pub open spec fn with_user(store: StoreView, user: UserView) -> StoreView {
    StoreView {
        users: store.users.insert(user.uid, user),
        users_by_pk: store.users_by_pk.insert(user.pk_hash, user.uid),
        ..store
    }
}

/// The store after a new user was stored under the next identifier.
pub open spec fn with_new_user(store: StoreView, user: UserView) -> StoreView {
    StoreView {
        next_uid: (store.next_uid + 1) as u32,
        ..with_user(store, UserView { uid: store.next_uid, ..user })
    }
}

/// The user that a key hash leads to, if it leads to one.
pub open spec fn user_by_pk(store: StoreView, pk_hash: Seq<u8>) -> Option<UserView> {
    if store.users_by_pk.contains_key(pk_hash) && store.users.contains_key(
        store.users_by_pk[pk_hash],
    ) {
        Some(store.users[store.users_by_pk[pk_hash]])
    } else {
        None
    }
}

/// Whether a list holds the channels of a store: each of them once, and
/// nothing else.
pub open spec fn listed(store: StoreView, list: Seq<Channel>) -> bool {
    &&& list.len() == store.channels.len()
    &&& forall|i: int|
        0 <= i < list.len() ==> store.channels.contains_key((#[trigger] list[i]).cid)
            && store.channels[list[i].cid] == list[i].name@
    &&& forall|cid: ChannelId| #[trigger]
        store.channels.contains_key(cid) ==> exists|i: int|
            0 <= i < list.len() && (#[trigger] list[i]).cid == cid
    &&& forall|i: int, j: int|
        0 <= i < j < list.len() ==> (#[trigger] list[i]).cid != (#[trigger] list[j]).cid
}

/// The mathematical value of a list of posts.
pub open spec fn message_views(list: Seq<ChannelMessage>) -> Seq<ChannelMessageView> {
    list.map_values(|msg: ChannelMessage| msg@)
}

/// The mathematical value of a list of posts with their identifiers.
pub open spec fn post_views(list: Seq<(MessageId, ChannelMessage)>) -> Seq<
    (MessageId, ChannelMessageView),
> {
    list.map_values(|post: (MessageId, ChannelMessage)| (post.0, post.1@))
}

/// Tells whether two key hashes are the same.
pub fn same_hash(a: &UserPkHash, b: &UserPkHash) -> (same: bool)
    ensures
        same == (a@ == b@),
{
    let mut i: usize = 0;
    while i < 32
        invariant
            i <= 32,
            forall|j: int| 0 <= j < i ==> a.0@[j] == b.0@[j],
        decreases 32 - i,
    {
        if a.0[i] != b.0[i] {
            return false;
        }
        i = i + 1;
    }
    assert(a@ =~= b@);
    true
}

/// A store of channels, posts and users that lives in memory.
pub struct InMemoryStorage {
    next_cid: ChannelId,
    next_mid: MessageId,
    next_uid: UserId,
    channels: HashMap<ChannelId, Channel>,
    messages: HashMap<ChannelId, Vec<(MessageId, ChannelMessage)>>,
    users: HashMap<UserId, User>,
    users_by_pk: Vec<(UserPkHash, UserId)>,
}

/// The user that an index of key hashes gives for a hash: the one of the
/// first entry with that hash.
pub open spec fn indexed(index: Seq<(UserPkHash, UserId)>) -> Map<Seq<u8>, UserId> {
    Map::new(
        |pk: Seq<u8>| exists|i: int| 0 <= i < index.len() && (#[trigger] index[i]).0@ == pk,
        |pk: Seq<u8>| index[choose|i: int| 0 <= i < index.len() && (#[trigger] index[i]).0@ == pk].1,
    )
}

impl InMemoryStorage {
    /// Every channel is stored under its own identifier, every user that the
    /// index of key hashes names exists, and no hash is indexed twice.
    pub closed spec fn wf(&self) -> bool {
        &&& forall|cid: ChannelId| #[trigger]
            self.channels@.contains_key(cid) ==> self.channels@[cid].cid == cid
        &&& forall|i: int, j: int|
            0 <= i < j < self.users_by_pk@.len() ==> (#[trigger] self.users_by_pk@[i]).0@ != (
            #[trigger] self.users_by_pk@[j]).0@
        &&& forall|i: int|
            0 <= i < self.users_by_pk@.len() ==> self.users@.contains_key(
                (#[trigger] self.users_by_pk@[i]).1,
            )
    }

    pub closed spec fn view(&self) -> StoreView {
        StoreView {
            channels: self.channels@.map_values(|channel: Channel| channel.name@),
            messages: self.messages@.map_values(
                |list: Vec<(MessageId, ChannelMessage)>| post_views(list@),
            ),
            users: self.users@.map_values(|user: User| user@),
            users_by_pk: indexed(self.users_by_pk@),
            next_cid: self.next_cid,
            next_mid: self.next_mid,
            next_uid: self.next_uid,
        }
    }

    /// An empty store.
    pub fn new() -> (store: Self)
        ensures
            store.wf(),
            store@ == empty_store(),
    {
        let store = InMemoryStorage {
            next_cid: 1,
            next_mid: 1,
            next_uid: 1,
            channels: HashMap::new(),
            messages: HashMap::new(),
            users: HashMap::new(),
            users_by_pk: Vec::new(),
        };
        assert(store@.channels =~= Map::empty());
        assert(store@.messages =~= Map::empty());
        assert(store@.users =~= Map::empty());
        assert(store@.users_by_pk =~= Map::empty());
        store
    }

    /// Opens a channel under the next identifier.
    pub fn add_channel(&mut self, name: &str) -> (result: Result<ChannelId, StorageError>)
        requires
            old(self).wf(),
        ensures
            final(self).wf(),
            result == given(old(self)@.next_cid),
            final(self)@ == if result is Ok {
                with_channel(old(self)@, name@)
            } else {
                old(self)@
            },
    {
        broadcast use group_hash_axioms;

        if self.next_cid == u32::MAX {
            return Err(StorageError::OutOfIds);
        }
        let cid = self.next_cid;
        self.next_cid = cid + 1;
        self.channels.insert(cid, Channel { cid, name: name.to_owned() });
        assert(self@.channels =~= old(self)@.channels.insert(cid, name@));
        Ok(cid)
    }

    /// All channels, each once, in no particular order.
    pub fn get_channels(&self) -> (list: Vec<Channel>)
        requires
            self.wf(),
        ensures
            listed(self@, list@),
    {
        broadcast use group_hash_axioms;

        let ghost channels = self.channels@;
        let ghost pairs = self.channels.iter().remaining();
        let ghost mut seen: int = 0;
        let mut list: Vec<Channel> = Vec::new();
        for entry in it: self.channels.iter()
            invariant
                self.wf(),
                channels == self.channels@,
                pairs == it.seq(),
                pairs.no_duplicates(),
                seen == it.index(),
                pairs.len() == channels.dom().len(),
                forall|i: int|
                    #![trigger pairs[i]]
                    0 <= i < pairs.len() ==> channels.contains_key(*pairs[i].0) && channels[*pairs[i].0]
                        == *pairs[i].1,
                forall|k: ChannelId| #[trigger]
                    channels.contains_key(k) ==> pairs.contains((&k, &channels[k])),
                list@.len() == seen,
                forall|i: int| 0 <= i < seen ==> (#[trigger] list@[i]) == *pairs[i].1,
        {
            let (_, channel) = entry;
            list.push(channel.clone());
            proof {
                seen = seen + 1;
            }
        }
        assert(self@.channels.dom() =~= channels.dom());
        assert forall|cid: ChannelId| #[trigger] self@.channels.contains_key(cid) implies exists|
            i: int,
        | 0 <= i < list@.len() && (#[trigger] list@[i]).cid == cid by {
            let pair = (&cid, &channels[cid]);
            assert(pairs.contains(pair));
            let i = choose|i: int| 0 <= i < pairs.len() && pairs[i] == pair;
            assert(list@[i].cid == cid);
        }
        assert forall|i: int, j: int| 0 <= i < j < list@.len() implies (#[trigger] list@[i]).cid != (
        #[trigger] list@[j]).cid by {
            if list@[i].cid == list@[j].cid {
                assert(*pairs[i].0 == list@[i].cid);
                assert(*pairs[j].0 == list@[j].cid);
                assert(pairs[i] == pairs[j]);
            }
        }
        assert forall|i: int| 0 <= i < list@.len() implies self@.channels.contains_key(
            (#[trigger] list@[i]).cid,
        ) && self@.channels[list@[i].cid] == list@[i].name@ by {
            assert(*pairs[i].0 == list@[i].cid);
        }
        list
    }

    /// A channel with the given name. Where several channels carry the name,
    /// any one of them is reported.
    pub fn get_channel_by_name(&self, name: &str) -> (result: Result<Channel, StorageError>)
        requires
            self.wf(),
        ensures
            result matches Ok(channel) ==> self@.channels.contains_key(channel.cid)
                && channel.name@ == name@ && self@.channels[channel.cid] == name@,
            result matches Err(error) ==> error == StorageError::ChannelNotFound && forall|
                cid: ChannelId,
            | #[trigger] self@.channels.contains_key(cid) ==> self@.channels[cid] != name@,
    {
        broadcast use group_hash_axioms;

        let wanted = name.to_owned();
        let ghost channels = self.channels@;
        let ghost pairs = self.channels.iter().remaining();
        let ghost mut seen: int = 0;
        for entry in it: self.channels.iter()
            invariant
                self.wf(),
                wanted@ == name@,
                channels == self.channels@,
                pairs == it.seq(),
                seen == it.index(),
                forall|i: int|
                    #![trigger pairs[i]]
                    0 <= i < pairs.len() ==> channels.contains_key(*pairs[i].0) && channels[*pairs[i].0]
                        == *pairs[i].1,
                forall|k: ChannelId| #[trigger]
                    channels.contains_key(k) ==> pairs.contains((&k, &channels[k])),
                forall|i: int| 0 <= i < seen ==> (*(#[trigger] pairs[i]).1).name@ != name@,
        {
            let (_, channel) = entry;
            if channel.name == wanted {
                assert(*pairs[seen].0 == channel.cid);
                return Ok(channel.clone());
            }
            proof {
                seen = seen + 1;
            }
        }
        assert forall|cid: ChannelId| #[trigger] self@.channels.contains_key(cid) implies self@.channels[cid]
            != name@ by {
            let pair = (&cid, &channels[cid]);
            assert(pairs.contains(pair));
            let i = choose|i: int| 0 <= i < pairs.len() && pairs[i] == pair;
            assert((*pairs[i].1).name@ != name@);
        }
        Err(StorageError::ChannelNotFound)
    }

    /// Closes a channel and drops its posts. A channel that does not exist
    /// changes nothing.
    pub fn rm_channel(&mut self, cid: ChannelId) -> (result: Result<ChannelId, StorageError>)
        requires
            old(self).wf(),
        ensures
            final(self).wf(),
            result == Ok::<ChannelId, StorageError>(cid),
            final(self)@ == without_channel(old(self)@, cid),
    {
        broadcast use group_hash_axioms;

        self.channels.remove(&cid);
        self.messages.remove(&cid);
        assert(self@.channels =~= old(self)@.channels.remove(cid));
        assert(self@.messages =~= old(self)@.messages.remove(cid));
        Ok(cid)
    }

    /// Adds a post to the end of a channel's list, under the next
    /// identifier. The channel need not exist.
    pub fn add_message(&mut self, channel: ChannelId, message: &ChannelMessage) -> (result: Result<
        MessageId,
        StorageError,
    >)
        requires
            old(self).wf(),
        ensures
            final(self).wf(),
            result == given(old(self)@.next_mid),
            final(self)@ == if result is Ok {
                with_post(old(self)@, channel, message@)
            } else {
                old(self)@
            },
    {
        broadcast use group_hash_axioms;

        if self.next_mid == u32::MAX {
            return Err(StorageError::OutOfIds);
        }
        let mid = self.next_mid;
        self.next_mid = mid + 1;
        let mut list = match self.messages.remove(&channel) {
            Some(list) => list,
            None => Vec::new(),
        };
        assert(post_views(list@) =~= posts_of(old(self)@, channel));
        list.push((mid, message.clone()));
        assert(post_views(list@) =~= posts_of(old(self)@, channel).push((mid, message@)));
        self.messages.insert(channel, list);
        assert(self@.messages =~= old(self)@.messages.insert(
            channel,
            posts_of(old(self)@, channel).push((mid, message@)),
        ));
        Ok(mid)
    }

    /// The posts of a channel that were made from `from_ts` to `to_ts`, both
    /// included, oldest first.
    pub fn get_messages(&self, channel: ChannelId, from_ts: u64, to_ts: u64) -> (list: Vec<
        ChannelMessage,
    >)
        requires
            self.wf(),
        ensures
            message_views(list@) == in_window(posts_of(self@, channel), from_ts, to_ts),
    {
        broadcast use group_hash_axioms;

        let mut list: Vec<ChannelMessage> = Vec::new();
        assert(message_views(list@) =~= Seq::empty());
        match self.messages.get(&channel) {
            Some(posts) => {
                let ghost all = post_views(posts@);
                assert(all == posts_of(self@, channel));
                let mut i: usize = 0;
                assert(all.take(0) =~= Seq::empty());
                while i < posts.len()
                    invariant
                        i <= posts.len(),
                        all == post_views(posts@),
                        message_views(list@) == in_window(all.take(i as int), from_ts, to_ts),
                    decreases posts.len() - i,
                {
                    let ghost before = message_views(list@);
                    proof {
                        assert(all.take(i + 1).drop_last() =~= all.take(i as int));
                        assert(all.take(i + 1).last() == (posts@[i as int].0, posts@[i as int].1@));
                    }
                    let msg = &posts[i].1;
                    if msg.cid_ts.1 >= from_ts && msg.cid_ts.1 <= to_ts {
                        list.push(msg.clone());
                        assert(message_views(list@) =~= before.push(msg@));
                    }
                    i = i + 1;
                }
                assert(all.take(i as int) =~= all);
            },
            None => {},
        }
        list
    }

    fn index_user(&mut self, pk_hash: UserPkHash, uid: UserId)
        requires
            old(self).wf(),
            old(self).users@.contains_key(uid),
        ensures
            final(self).wf(),
            final(self)@ == (StoreView {
                users_by_pk: old(self)@.users_by_pk.insert(pk_hash@, uid),
                ..old(self)@
            }),
    {
        let mut i: usize = 0;
        while i < self.users_by_pk.len()
            invariant
                i <= self.users_by_pk.len(),
                *self == *old(self),
                self.wf(),
                self.users@.contains_key(uid),
                forall|j: int| 0 <= j < i ==> (#[trigger] self.users_by_pk@[j]).0@ != pk_hash@,
            decreases self.users_by_pk.len() - i,
        {
            if same_hash(&self.users_by_pk[i].0, &pk_hash) {
                self.users_by_pk.set(i, (pk_hash, uid));
                proof {
                    let before = old(self).users_by_pk@;
                    let after = self.users_by_pk@;
                    assert(after[i as int].0@ == before[i as int].0@);
                    assert(forall|j: int| 0 <= j < after.len() && j != i ==> after[j] == before[j]);
                    assert forall|pk: Seq<u8>|
                        indexed(after).contains_key(pk) == indexed(before).insert(
                            pk_hash@,
                            uid,
                        ).contains_key(pk) by {
                        if indexed(after).contains_key(pk) {
                            let k = choose|k: int| 0 <= k < after.len() && (#[trigger] after[k]).0@ == pk;
                            assert(before[k].0@ == pk);
                        }
                        if indexed(before).contains_key(pk) {
                            let k = choose|k: int|
                                0 <= k < before.len() && (#[trigger] before[k]).0@ == pk;
                            assert(after[k].0@ == pk);
                        }
                        if pk == pk_hash@ {
                            assert(after[i as int].0@ == pk);
                        }
                    }
                    assert forall|pk: Seq<u8>| indexed(after).contains_key(pk) implies indexed(
                        after,
                    )[pk] == indexed(before).insert(pk_hash@, uid)[pk] by {
                        let k = choose|k: int| 0 <= k < after.len() && (#[trigger] after[k]).0@ == pk;
                        if pk == pk_hash@ {
                            if k != i {
                                assert(before[k].0@ == before[i as int].0@);
                            }
                        } else {
                            assert(before[k].0@ == pk);
                            let b = choose|b: int|
                                0 <= b < before.len() && (#[trigger] before[b]).0@ == pk;
                            if b != k {
                                assert(before[b].0@ == before[k].0@);
                            }
                        }
                    }
                    assert(indexed(after) =~= indexed(before).insert(pk_hash@, uid));
                }
                return ;
            }
            i = i + 1;
        }
        self.users_by_pk.push((pk_hash, uid));
        proof {
            let before = old(self).users_by_pk@;
            let after = self.users_by_pk@;
            assert forall|pk: Seq<u8>|
                indexed(after).contains_key(pk) == indexed(before).insert(pk_hash@, uid).contains_key(
                    pk,
                ) by {
                if indexed(after).contains_key(pk) {
                    let k = choose|k: int| 0 <= k < after.len() && (#[trigger] after[k]).0@ == pk;
                    if k < before.len() {
                        assert(before[k].0@ == pk);
                    }
                }
                if indexed(before).contains_key(pk) {
                    let k = choose|k: int| 0 <= k < before.len() && (#[trigger] before[k]).0@ == pk;
                    assert(after[k].0@ == pk);
                }
                if pk == pk_hash@ {
                    assert(after[before.len() as int].0@ == pk);
                }
            }
            assert forall|pk: Seq<u8>| indexed(after).contains_key(pk) implies indexed(after)[pk]
                == indexed(before).insert(pk_hash@, uid)[pk] by {
                let k = choose|k: int| 0 <= k < after.len() && (#[trigger] after[k]).0@ == pk;
                if pk == pk_hash@ {
                    if k < before.len() {
                        assert(before[k].0@ == pk_hash@);
                    }
                } else {
                    assert(before[k].0@ == pk);
                    let b = choose|b: int| 0 <= b < before.len() && (#[trigger] before[b]).0@ == pk;
                    if b != k {
                        assert(before[b].0@ == before[k].0@);
                    }
                }
            }
            assert(indexed(after) =~= indexed(before).insert(pk_hash@, uid));
        }
    }

    /// Stores a new user under the next identifier and indexes the user by
    /// key hash. The identifier that the record came with is not used.
    pub fn add_user(&mut self, user: &User) -> (result: Result<UserId, StorageError>)
        requires
            old(self).wf(),
        ensures
            final(self).wf(),
            result == given(old(self)@.next_uid),
            final(self)@ == if result is Ok {
                with_new_user(old(self)@, user@)
            } else {
                old(self)@
            },
    {
        broadcast use group_hash_axioms;

        if self.next_uid == u32::MAX {
            return Err(StorageError::OutOfIds);
        }
        let uid = self.next_uid;
        self.next_uid = uid + 1;
        let mut stored = user.clone();
        stored.uid = uid;
        self.users.insert(uid, stored);
        assert(self@.users =~= old(self)@.users.insert(uid, UserView { uid, ..user@ }));
        self.index_user(user.pk_hash, uid);
        Ok(uid)
    }

    /// Stores a user under the identifier that the record carries, in place
    /// of what was stored under it, and indexes the user by key hash.
    pub fn update_user(&mut self, user: &User) -> (result: Result<UserId, StorageError>)
        requires
            old(self).wf(),
        ensures
            final(self).wf(),
            result == Ok::<UserId, StorageError>(user.uid),
            final(self)@ == with_user(old(self)@, user@),
    {
        broadcast use group_hash_axioms;

        self.users.insert(user.uid, user.clone());
        assert(self@.users =~= old(self)@.users.insert(user.uid, user@));
        self.index_user(user.pk_hash, user.uid);
        Ok(user.uid)
    }

    /// The user stored under an identifier.
    pub fn get_user_by_id(&self, uid: UserId) -> (result: Result<User, StorageError>)
        requires
            self.wf(),
        ensures
            result is Ok <==> self@.users.contains_key(uid),
            result matches Ok(user) ==> user@ == self@.users[uid],
            result matches Err(error) ==> error == StorageError::UserNotFound,
    {
        broadcast use group_hash_axioms;

        match self.users.get(&uid) {
            Some(user) => Ok(user.clone()),
            None => Err(StorageError::UserNotFound),
        }
    }

    /// The user last stored with a key hash, as stored now.
    pub fn get_user_by_pkhash(&self, pkhash: &UserPkHash) -> (result: Result<User, StorageError>)
        requires
            self.wf(),
        ensures
            result is Ok <==> self@.users_by_pk.contains_key(pkhash@),
            result matches Ok(user) ==> Some(user@) == user_by_pk(self@, pkhash@),
            result matches Err(error) ==> error == StorageError::UserNotFound,
    {
        broadcast use group_hash_axioms;

        let mut i: usize = 0;
        while i < self.users_by_pk.len()
            invariant
                self.wf(),
                i <= self.users_by_pk.len(),
                forall|j: int| 0 <= j < i ==> (#[trigger] self.users_by_pk@[j]).0@ != pkhash@,
            decreases self.users_by_pk.len() - i,
        {
            if same_hash(&self.users_by_pk[i].0, pkhash) {
                let uid = self.users_by_pk[i].1;
                proof {
                    let index = self.users_by_pk@;
                    let k = choose|k: int| 0 <= k < index.len() && (#[trigger] index[k]).0@ == pkhash@;
                    if k != i {
                        assert(index[k].0@ == index[i as int].0@);
                    }
                }
                return self.get_user_by_id(uid);
            }
            i = i + 1;
        }
        Err(StorageError::UserNotFound)
    }
}

/// Every post of a window was made within it.
pub proof fn lemma_in_window_bounds(
    posts: Seq<(MessageId, ChannelMessageView)>,
    from_ts: u64,
    to_ts: u64,
)
    ensures
        forall|i: int|
            0 <= i < in_window(posts, from_ts, to_ts).len() ==> from_ts <= (#[trigger] in_window(
                posts,
                from_ts,
                to_ts,
            )[i]).cid_ts.1 <= to_ts,
    decreases posts.len(),
{
    if posts.len() > 0 {
        lemma_in_window_bounds(posts.drop_last(), from_ts, to_ts);
        let all = in_window(posts, from_ts, to_ts);
        let before = in_window(posts.drop_last(), from_ts, to_ts);
        assert forall|i: int| 0 <= i < all.len() implies from_ts <= (#[trigger] all[i]).cid_ts.1
            <= to_ts by {
            if i < before.len() {
                assert(all[i] == before[i]);
            }
        }
    }
}

/// The posts of a list that were made from `ts_start` on and before `ts_end`,
/// in the order of the list.
pub open spec fn before_end(
    posts: Seq<(MessageId, ChannelMessageView)>,
    ts_start: u64,
    ts_end: u64,
) -> Seq<ChannelMessageView> {
    if ts_end == 0 {
        Seq::empty()
    } else {
        in_window(posts, ts_start, (ts_end - 1) as u64)
    }
}

/// What the bulletin board asks of the place that keeps its records. A call
/// may fail for reasons of that place's own. Beside each call stands what the
/// store says of it: how the result, and the store after the call, follow from
/// the arguments and from the store before it. A store that says nothing of
/// a call leaves that as it is here.
pub trait Storage {
    /// Whether the store is in order. Every call needs it and keeps it. A
    /// store that says nothing of its own is always in order.
    open spec fn valid(&self) -> bool {
        true
    }

    /// What the store says of [`add_channel`](Self::add_channel).
    open spec fn add_channel_spec(
        &self,
        after: &Self,
        name: Seq<char>,
        result: Result<ChannelId, StorageError>,
    ) -> bool {
        true
    }

    /// What the store says of [`get_channels`](Self::get_channels).
    open spec fn get_channels_spec(&self, result: Result<Vec<Channel>, StorageError>) -> bool {
        true
    }

    /// What the store says of [`add_message`](Self::add_message).
    open spec fn add_message_spec(
        &self,
        after: &Self,
        message: ChannelMessage,
        result: Result<MessageId, StorageError>,
    ) -> bool {
        true
    }

    /// What the store says of [`get_messages`](Self::get_messages).
    open spec fn get_messages_spec(
        &self,
        channel_id: ChannelId,
        ts_start: u64,
        ts_end: u64,
        result: Result<Vec<ChannelMessage>, StorageError>,
    ) -> bool {
        true
    }

    /// What the store says of [`add_user`](Self::add_user).
    open spec fn add_user_spec(
        &self,
        after: &Self,
        user: User,
        result: Result<UserId, StorageError>,
    ) -> bool {
        true
    }

    /// What the store says of [`update_user`](Self::update_user).
    open spec fn update_user_spec(
        &self,
        after: &Self,
        user_id: UserId,
        user: User,
        result: Result<u32, StorageError>,
    ) -> bool {
        true
    }

    /// What the store says of [`get_user_by_id`](Self::get_user_by_id).
    open spec fn get_user_by_id_spec(&self, id: UserId, result: Result<User, StorageError>) -> bool {
        true
    }

    /// What the store says of [`get_user_by_pkhash`](Self::get_user_by_pkhash).
    open spec fn get_user_by_pkhash_spec(
        &self,
        pk_hash: UserPkHash,
        result: Result<User, StorageError>,
    ) -> bool {
        true
    }

    /// Opens a channel and gives its identifier.
    fn add_channel(&mut self, name: &str) -> (result: Result<ChannelId, StorageError>)
        requires
            old(self).valid(),
        ensures
            final(self).valid(),
            old(self).add_channel_spec(final(self), name@, result),
    ;

    /// All channels.
    fn get_channels(&self) -> (result: Result<Vec<Channel>, StorageError>)
        requires
            self.valid(),
        ensures
            self.get_channels_spec(result),
    ;

    /// Adds a post to the channel that it names.
    fn add_message(&mut self, message: ChannelMessage) -> (result: Result<MessageId, StorageError>)
        requires
            old(self).valid(),
        ensures
            final(self).valid(),
            old(self).add_message_spec(final(self), message, result),
    ;

    /// The posts of a channel that were made from `ts_start` on and before
    /// `ts_end`, oldest first.
    fn get_messages(&self, channel_id: ChannelId, ts_start: u64, ts_end: u64) -> (result: Result<
        Vec<ChannelMessage>,
        StorageError,
    >)
        requires
            self.valid(),
        ensures
            result matches Ok(list) ==> forall|i: int|
                0 <= i < list@.len() ==> ts_start <= (#[trigger] list@[i]).cid_ts.1 < ts_end,
            self.get_messages_spec(channel_id, ts_start, ts_end, result),
    ;

    /// Stores a new user and gives the identifier chosen for the user.
    fn add_user(&mut self, user: User) -> (result: Result<UserId, StorageError>)
        requires
            old(self).valid(),
        ensures
            final(self).valid(),
            old(self).add_user_spec(final(self), user, result),
    ;

    /// Stores a record in place of the one with the identifier that it
    /// carries.
    fn update_user(&mut self, user_id: UserId, user: User) -> (result: Result<u32, StorageError>)
        requires
            old(self).valid(),
            user.uid == user_id,
        ensures
            final(self).valid(),
            old(self).update_user_spec(final(self), user_id, user, result),
    ;

    /// The user with an identifier.
    fn get_user_by_id(&self, id: UserId) -> (result: Result<User, StorageError>)
        requires
            self.valid(),
        ensures
            self.get_user_by_id_spec(id, result),
    ;

    /// The user with a key hash.
    fn get_user_by_pkhash(&self, pk_hash: UserPkHash) -> (result: Result<User, StorageError>)
        requires
            self.valid(),
        ensures
            self.get_user_by_pkhash_spec(pk_hash, result),
    ;
}

impl Storage for InMemoryStorage {
    open spec fn valid(&self) -> bool {
        self.wf()
    }

    /// The channel gets the next identifier, unless the last one has been
    /// given out; then nothing changes.
    open spec fn add_channel_spec(
        &self,
        after: &Self,
        name: Seq<char>,
        result: Result<ChannelId, StorageError>,
    ) -> bool {
        &&& result == given(self@.next_cid)
        &&& after@ == if result is Ok {
            with_channel(self@, name)
        } else {
            self@
        }
    }

    /// The call succeeds and lists every channel once, in no particular
    /// order.
    open spec fn get_channels_spec(&self, result: Result<Vec<Channel>, StorageError>) -> bool {
        result matches Ok(list) && listed(self@, list@)
    }

    /// The post goes to the end of the list of the channel that it names,
    /// under the next identifier, unless the last one has been given out;
    /// then nothing changes.
    open spec fn add_message_spec(
        &self,
        after: &Self,
        message: ChannelMessage,
        result: Result<MessageId, StorageError>,
    ) -> bool {
        &&& result == given(self@.next_mid)
        &&& after@ == if result is Ok {
            with_post(self@, message.cid_ts.0, message@)
        } else {
            self@
        }
    }

    /// The call succeeds and gives the posts of the channel that were made
    /// from `ts_start` on and before `ts_end`, oldest first.
    open spec fn get_messages_spec(
        &self,
        channel_id: ChannelId,
        ts_start: u64,
        ts_end: u64,
        result: Result<Vec<ChannelMessage>, StorageError>,
    ) -> bool {
        result matches Ok(list) && message_views(list@) == before_end(
            posts_of(self@, channel_id),
            ts_start,
            ts_end,
        )
    }

    /// The user is stored under the next identifier, unless the last one has
    /// been given out; then nothing changes.
    open spec fn add_user_spec(
        &self,
        after: &Self,
        user: User,
        result: Result<UserId, StorageError>,
    ) -> bool {
        &&& result == given(self@.next_uid)
        &&& after@ == if result is Ok {
            with_new_user(self@, user@)
        } else {
            self@
        }
    }

    /// The call succeeds, and the record stands in place of what was stored
    /// under its identifier.
    open spec fn update_user_spec(
        &self,
        after: &Self,
        user_id: UserId,
        user: User,
        result: Result<u32, StorageError>,
    ) -> bool {
        &&& result == Ok::<u32, StorageError>(user.uid)
        &&& after@ == with_user(self@, user@)
    }

    /// The user stored under the identifier is given; the call fails if and
    /// only if there is none.
    open spec fn get_user_by_id_spec(&self, id: UserId, result: Result<User, StorageError>) -> bool {
        match result {
            Ok(user) => self@.users.contains_key(id) && user@ == self@.users[id],
            Err(error) => !self@.users.contains_key(id) && error == StorageError::UserNotFound,
        }
    }

    /// The user that the key hash leads to is given; the call fails if and
    /// only if the hash leads to none.
    open spec fn get_user_by_pkhash_spec(
        &self,
        pk_hash: UserPkHash,
        result: Result<User, StorageError>,
    ) -> bool {
        match result {
            Ok(user) => self@.users_by_pk.contains_key(pk_hash@) && Some(user@) == user_by_pk(
                self@,
                pk_hash@,
            ),
            Err(error) => !self@.users_by_pk.contains_key(pk_hash@) && error
                == StorageError::UserNotFound,
        }
    }

    fn add_channel(&mut self, name: &str) -> (result: Result<ChannelId, StorageError>) {
        InMemoryStorage::add_channel(self, name)
    }

    fn get_channels(&self) -> (result: Result<Vec<Channel>, StorageError>) {
        Ok(InMemoryStorage::get_channels(self))
    }

    fn add_message(&mut self, message: ChannelMessage) -> (result: Result<MessageId, StorageError>) {
        InMemoryStorage::add_message(self, message.cid_ts.0, &message)
    }

    fn get_messages(&self, channel_id: ChannelId, ts_start: u64, ts_end: u64) -> (result: Result<
        Vec<ChannelMessage>,
        StorageError,
    >) {
        if ts_end == 0 {
            let list: Vec<ChannelMessage> = Vec::new();
            assert(message_views(list@) =~= Seq::empty());
            return Ok(list);
        }
        let list = InMemoryStorage::get_messages(self, channel_id, ts_start, ts_end - 1);
        proof {
            lemma_in_window_bounds(posts_of(self@, channel_id), ts_start, (ts_end - 1) as u64);
            let window = in_window(posts_of(self@, channel_id), ts_start, (ts_end - 1) as u64);
            assert forall|i: int| 0 <= i < list@.len() implies ts_start <= (#[trigger] list@[i]).cid_ts.1
                < ts_end by {
                assert(message_views(list@)[i] == list@[i]@);
                assert(window[i].cid_ts.1 <= ts_end - 1);
            }
        }
        Ok(list)
    }

    fn add_user(&mut self, user: User) -> (result: Result<UserId, StorageError>) {
        InMemoryStorage::add_user(self, &user)
    }

    fn update_user(&mut self, user_id: UserId, user: User) -> (result: Result<u32, StorageError>) {
        InMemoryStorage::update_user(self, &user)
    }

    fn get_user_by_id(&self, id: UserId) -> (result: Result<User, StorageError>) {
        InMemoryStorage::get_user_by_id(self, id)
    }

    fn get_user_by_pkhash(&self, pk_hash: UserPkHash) -> (result: Result<User, StorageError>) {
        InMemoryStorage::get_user_by_pkhash(self, &pk_hash)
    }
}

} // verus!
