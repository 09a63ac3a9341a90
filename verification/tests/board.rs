use meshboard::bbs::service::ack;
use meshboard::bbs::service::channels_reply;
use meshboard::bbs::service::find_channel;
use meshboard::bbs::service::help;
use meshboard::bbs::service::list_reply;
use meshboard::bbs::service::new_post;
use meshboard::bbs::service::new_user;
use meshboard::bbs::service::one_line;
use meshboard::bbs::service::BbsError;
use meshboard::bbs::service::Session;
use meshboard::bbs::service::BBS;
use meshboard::bbs::storage::Channel;
use meshboard::bbs::storage::ChannelMessage;
use meshboard::bbs::storage::InMemoryStorage;
use meshboard::bbs::storage::Storage;
use meshboard::bbs::storage::StorageError;
use meshboard::bbs::storage::UserPkHash;
use meshboard::text::join_by;

const HELP: &str = "h(elp) | c(hannels)  | j(oin) ch | p(ost) msg  | l(list)";

fn board() -> BBS<InMemoryStorage> {
    let mut board = BBS::new(InMemoryStorage::new());
    board.init().unwrap();
    board
}

fn channel(cid: u32, name: &str) -> Channel {
    Channel { cid, name: name.to_string() }
}

fn post(cid: u32, ts: u64, text: &str) -> ChannelMessage {
    ChannelMessage { cid_ts: (cid, ts), uid: 1, text: text.to_string() }
}

#[test]
fn init_opens_two_channels_once() {
    let mut board = board();
    let mut names: Vec<String> =
        board.storage().get_channels().iter().map(|c| c.name.clone()).collect();
    names.sort();
    assert_eq!(names, vec!["general", "news"]);
    board.init().unwrap();
    assert_eq!(board.storage().get_channels().len(), 2);
}

#[test]
fn help_is_the_answer_to_anything_else() {
    let mut board = board();
    assert_eq!(board.handle([1; 32], "AB", "h", 5), Ok(vec![HELP.to_string()]));
    assert_eq!(board.handle([1; 32], "AB", "help", 5), Ok(vec![HELP.to_string()]));
    assert_eq!(board.handle([1; 32], "AB", "what", 5), Ok(vec![HELP.to_string()]));
    assert_eq!(board.handle([1; 32], "AB", "", 5), Ok(vec![HELP.to_string()]));
    assert_eq!(board.handle([1; 32], "AB", "j", 5), Ok(vec![HELP.to_string()]));
    assert_eq!(help(), HELP);
    assert_eq!(ack(), "Ack");
}

#[test]
fn first_command_adds_the_user() {
    let mut board = board();
    board.handle([1; 32], "AB", "h", 5).unwrap();
    board.handle([2; 32], "CD", "h", 5).unwrap();
    board.handle([1; 32], "XY", "h", 5).unwrap();
    let first = board.storage().get_user_by_pkhash(&UserPkHash([1; 32])).unwrap();
    assert_eq!(first.uid, 1);
    assert_eq!(first.short_name, "AB");
    assert_eq!(first.last_ts, 0);
    let second = board.storage().get_user_by_pkhash(&UserPkHash([2; 32])).unwrap();
    assert_eq!(second.uid, 2);
    assert_eq!(board.storage().get_user_by_id(3).unwrap_err(), StorageError::UserNotFound);
}

#[test]
fn channels_are_listed_on_one_line() {
    let mut board = board();
    let lines = board.handle([1; 32], "AB", "c", 5).unwrap();
    assert_eq!(lines.len(), 1);
    assert!(lines[0] == "news,general" || lines[0] == "general,news");
}

#[test]
fn join_post_and_list() {
    let mut board = board();
    assert_eq!(board.handle([1; 32], "AB", "j news", 1000), Ok(vec!["Ack".to_string()]));
    assert_eq!(board.handle([1; 32], "AB", "p hello  world", 2000), Ok(vec!["Ack".to_string()]));
    assert_eq!(board.handle([2; 32], "CD", "join news", 2500), Ok(vec!["Ack".to_string()]));
    assert_eq!(board.handle([2; 32], "CD", "post second", 3000), Ok(vec!["Ack".to_string()]));
    let news = board.storage().get_channel_by_name("news").unwrap().cid;
    let stored = board.storage().get_messages(news, 0, u64::MAX);
    assert_eq!(stored.len(), 2);
    assert_eq!(stored[0].cid_ts, (news, 2000));
    assert_eq!(stored[0].uid, 1);
    assert_eq!(stored[0].text, "AB: hello world");
    let now = 2000 + 2 * 86_400 + 5;
    assert_eq!(
        board.handle([1; 32], "AB", "l", now),
        Ok(vec![
            "2 Messages.".to_string(),
            "2d, AB: hello world".to_string(),
            "1d, CD: second".to_string()
        ])
    );
    assert_eq!(board.storage().get_user_by_id(1).unwrap().last_ts, now);
    assert_eq!(board.handle([1; 32], "AB", "list", now + 1), Ok(vec!["0 Messages.".to_string()]));
    assert_eq!(board.handle([2; 32], "CD", "p at the end", now + 7), Ok(vec!["Ack".to_string()]));
    assert_eq!(
        board.handle([1; 32], "AB", "l", now + 7),
        Ok(vec!["0 Messages.".to_string()])
    );
    assert_eq!(
        board.handle([1; 32], "AB", "l", now + 8),
        Ok(vec!["1 Messages.".to_string(), "0d, CD: at the end".to_string()])
    );
}

#[test]
fn unknown_channel_cannot_be_joined() {
    let mut board = board();
    let error = board.handle([1; 32], "AB", "j nowhere", 5).unwrap_err();
    assert_eq!(error, BbsError::ChannelNotFound);
    assert_eq!(error.message(), "Channel not found");
    assert_eq!(BbsError::Storage(StorageError::UserNotFound).message(), "User not found");
    assert_eq!(BbsError::Storage(StorageError::Backend("disk".to_string())).message(), "disk");
}

#[test]
fn posts_before_a_join_go_to_the_first_channel() {
    let mut board = board();
    assert_eq!(board.handle([1; 32], "AB", "p early", 10), Ok(vec!["Ack".to_string()]));
    let stored = board.storage().get_messages(0, 0, u64::MAX);
    assert_eq!(stored.len(), 1);
    assert_eq!(stored[0].text, "AB: early");
    assert_eq!(stored[0].cid_ts, (0, 10));
}

#[test]
fn remembered_session_is_kept() {
    let mut board = board();
    let session = Session::new(9);
    assert_eq!(session.user_id, 9);
    assert_eq!(session.current_channel, 0);
    let kept = board.open_session(Some(session), UserPkHash([4; 32]), "ZZ").unwrap();
    assert_eq!(kept.user_id, 9);
    assert!(board.storage().get_channels().len() == 2);
    assert_eq!(
        board.storage().get_user_by_pkhash(&UserPkHash([4; 32])).unwrap_err(),
        StorageError::UserNotFound
    );
    let fresh = board.open_session(None, UserPkHash([4; 32]), "ZZ").unwrap();
    assert_eq!(fresh.user_id, 1);
    assert_eq!(fresh.current_channel, 0);
    let again = board.open_session(None, UserPkHash([4; 32]), "ZZ").unwrap();
    assert_eq!(again.user_id, 1);
}

#[test]
fn answer_fails_for_a_session_without_user() {
    let mut board = board();
    let error = board.answer(UserPkHash([4; 32]), Session::new(9), "h", 5).unwrap_err();
    assert_eq!(error, BbsError::Storage(StorageError::UserNotFound));
}

#[test]
fn names_are_joined_with_commas() {
    assert_eq!(channels_reply(&vec![]), vec![String::new()]);
    assert_eq!(channels_reply(&vec![channel(1, "a")]), vec!["a".to_string()]);
    assert_eq!(
        channels_reply(&vec![channel(1, "a"), channel(2, "b"), channel(3, "c")]),
        vec!["a,b,c".to_string()]
    );
    let parts = vec!["x".to_string(), "y".to_string(), "z".to_string()];
    assert_eq!(join_by(&parts, 0, ", "), "x, y, z");
    assert_eq!(join_by(&parts, 1, "-"), "y-z");
    assert_eq!(join_by(&parts, 2, "-"), "z");
    assert_eq!(join_by(&parts, 3, "-"), "");
    assert_eq!(one_line("only"), vec!["only".to_string()]);
}

#[test]
fn first_channel_with_the_name_is_found() {
    let channels = vec![channel(1, "a"), channel(2, "b"), channel(3, "b")];
    assert_eq!(find_channel(&channels, "a"), Some(1));
    assert_eq!(find_channel(&channels, "b"), Some(2));
    assert_eq!(find_channel(&channels, "c"), None);
    assert_eq!(find_channel(&vec![], "a"), None);
}

#[test]
fn listing_counts_and_ages() {
    assert_eq!(list_reply(&vec![], 0), vec!["0 Messages.".to_string()]);
    let posts = vec![post(1, 0, "old"), post(1, 86_400, "day"), post(1, 172_799, "new")];
    assert_eq!(
        list_reply(&posts, 172_800),
        vec![
            "3 Messages.".to_string(),
            "2d, old".to_string(),
            "1d, day".to_string(),
            "0d, new".to_string()
        ]
    );
}

#[test]
fn new_records_of_the_board() {
    let user = new_user(UserPkHash([3; 32]), "AB");
    assert_eq!(user.uid, 0);
    assert_eq!(user.short_name, "AB");
    assert_eq!(user.pk_hash, UserPkHash([3; 32]));
    assert_eq!(user.last_ts, 0);
    let mut session = Session::new(6);
    session.current_channel = 2;
    let made = new_post(&session, &user, "hi there", 77);
    assert_eq!(made.cid_ts, (2, 77));
    assert_eq!(made.uid, 6);
    assert_eq!(made.text, "AB: hi there");
}

#[test]
fn store_behind_the_trait_ends_the_window_early() {
    let mut store = InMemoryStorage::new();
    for ts in [10u64, 20, 30] {
        Storage::add_message(&mut store, post(4, ts, "x")).unwrap();
    }
    assert_eq!(Storage::get_messages(&store, 4, 10, 30).unwrap().len(), 2);
    assert_eq!(Storage::get_messages(&store, 4, 10, 31).unwrap().len(), 3);
    assert_eq!(Storage::get_messages(&store, 4, 0, 0).unwrap().len(), 0);
    assert_eq!(Storage::get_messages(&store, 4, 20, 21).unwrap().len(), 1);
    assert_eq!(Storage::get_channels(&store).unwrap().len(), 0);
    assert_eq!(Storage::add_channel(&mut store, "a"), Ok(1));
    let uid = Storage::add_user(&mut store, new_user(UserPkHash([1; 32]), "AB")).unwrap();
    let mut user = Storage::get_user_by_id(&store, uid).unwrap();
    user.last_ts = 4;
    assert_eq!(Storage::update_user(&mut store, uid, user), Ok(uid));
    assert_eq!(Storage::get_user_by_pkhash(&store, UserPkHash([1; 32])).unwrap().last_ts, 4);
}
