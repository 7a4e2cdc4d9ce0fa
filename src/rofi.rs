use vstd::prelude::*;

use crate::notification::{
    first_index, lemma_first_index_bounds, views, with_urgency, without_app, without_id,
    Notification, NotificationList, NotificationStore, Urgency,
};
use crate::text::{decimal, decimal_text, parse_u32, trim, trimmed, u32_of};

verus! {

/// A request of a rofication client, one per connection.
pub enum RofiCommand {
    /// Retrieve count of notifications
    Count,
    /// Retrieve all notifications
    List,
    /// Delete notification by id
    DeleteOne(u32),
    /// Delete all notifications with same app as id
    DeleteSimilar(u32),
    /// Delete all notifications with app name
    DeleteApps(String),
    /// Reduce urgency to 'normal'
    MarkSeen(u32),
}

/// A request, with the application name as a character sequence.
pub enum CommandView {
    Count,
    List,
    DeleteOne(u32),
    DeleteSimilar(u32),
    DeleteApps(Seq<char>),
    MarkSeen(u32),
}

impl View for RofiCommand {
    type V = CommandView;

    open spec fn view(&self) -> CommandView {
        match self {
            RofiCommand::Count => CommandView::Count,
            RofiCommand::List => CommandView::List,
            RofiCommand::DeleteOne(id) => CommandView::DeleteOne(*id),
            RofiCommand::DeleteSimilar(id) => CommandView::DeleteSimilar(*id),
            RofiCommand::DeleteApps(app) => CommandView::DeleteApps(app@),
            RofiCommand::MarkSeen(id) => CommandView::MarkSeen(*id),
        }
    }
}

/// The view of a parsed request, if any.
pub open spec fn command_view(r: Option<RofiCommand>) -> Option<CommandView> {
    match r {
        Some(c) => Some(c@),
        None => None,
    }
}

/// Index of the first colon at or after `from`, or the length when there is none.
pub open spec fn colon_from(s: Seq<char>, from: int) -> int
    decreases s.len() - from,
{
    if from < 0 || from >= s.len() {
        s.len() as int
    } else if s[from] == ':' {
        from
    } else {
        colon_from(s, from + 1)
    }
}

/// The id field of a request whose command word ends at `c`: the text up to the next colon.
pub open spec fn id_field(s: Seq<char>, c: int) -> Seq<char> {
    s.subrange(c + 1, colon_from(s, c + 1))
}

/// A request that carries an id after the command word ending at `c`.
pub open spec fn with_id(s: Seq<char>, c: int) -> Option<u32> {
    if c < s.len() {
        u32_of(id_field(s, c))
    } else {
        None
    }
}

/// The request that a line denotes: a command word, then for some commands a
/// colon and a payload.
pub open spec fn command_of(s: Seq<char>) -> Option<CommandView> {
    let c = colon_from(s, 0);
    let word = s.subrange(0, c);
    if word == seq!['n', 'u', 'm'] {
        Some(CommandView::Count)
    } else if word == seq!['l', 'i', 's', 't'] {
        Some(CommandView::List)
    } else if word == seq!['d', 'e', 'l'] {
        match with_id(s, c) {
            Some(id) => Some(CommandView::DeleteOne(id)),
            None => None,
        }
    } else if word == seq!['d', 'e', 'l', 's'] {
        match with_id(s, c) {
            Some(id) => Some(CommandView::DeleteSimilar(id)),
            None => None,
        }
    } else if word == seq!['d', 'e', 'l', 'a'] {
        if c < s.len() {
            Some(CommandView::DeleteApps(trimmed(s.subrange(c + 1, s.len() as int))))
        } else {
            None
        }
    } else if word == seq!['s', 'a', 'w'] {
        match with_id(s, c) {
            Some(id) => Some(CommandView::MarkSeen(id)),
            None => None,
        }
    } else {
        None
    }
}

/// Finds the first colon at or after `from`.
fn find_colon(s: &str, from: usize) -> (r: usize)
    requires
        from <= s@.len(),
    ensures
        r == colon_from(s@, from as int),
        from <= r <= s@.len(),
{
    let n = s.unicode_len();
    let mut i: usize = from;
    while i < n
        invariant
            n == s@.len(),
            from <= i <= n,
            colon_from(s@, from as int) == colon_from(s@, i as int),
        decreases n - i,
    {
        if s.get_char(i) == ':' {
            return i;
        }
        i += 1;
    }
    i
}

/// Whether the first `end` characters of `s` are exactly `word`.
fn starts_with_word(s: &str, end: usize, word: &str) -> (r: bool)
    requires
        end <= s@.len(),
    ensures
        r == (s@.subrange(0, end as int) == word@),
{
    let n = word.unicode_len();
    if n != end {
        return false;
    }
    let mut i: usize = 0;
    while i < n
        invariant
            n == word@.len(),
            n == end <= s@.len(),
            i <= n,
            forall|j: int| 0 <= j < i ==> s@[j] == word@[j],
        decreases n - i,
    {
        if s.get_char(i) != word.get_char(i) {
            assert(s@.subrange(0, end as int)[i as int] != word@[i as int]);
            return false;
        }
        i += 1;
    }
    assert(s@.subrange(0, end as int) =~= word@);
    true
}

/// Reads the id after the command word that ends at `c`.
fn read_id(s: &str, c: usize) -> (r: Option<u32>)
    requires
        c <= s@.len(),
    ensures
        r == with_id(s@, c as int),
{
    let n = s.unicode_len();
    if c < n {
        let end = find_colon(s, c + 1);
        let field = s.substring_char(c + 1, end);
        parse_u32(field)
    } else {
        None
    }
}

impl RofiCommand {
    /// Parses a client request line.
    pub fn parse(client_request: &str) -> (r: Option<RofiCommand>)
        ensures
            command_view(r) == command_of(client_request@),
    {
        let s = client_request;
        let n = s.unicode_len();
        let c = find_colon(s, 0);
        proof {
            reveal_strlit("num");
            reveal_strlit("list");
            reveal_strlit("del");
            reveal_strlit("dels");
            reveal_strlit("dela");
            reveal_strlit("saw");
            assert("num"@ =~= seq!['n', 'u', 'm']);
            assert("list"@ =~= seq!['l', 'i', 's', 't']);
            assert("del"@ =~= seq!['d', 'e', 'l']);
            assert("dels"@ =~= seq!['d', 'e', 'l', 's']);
            assert("dela"@ =~= seq!['d', 'e', 'l', 'a']);
            assert("saw"@ =~= seq!['s', 'a', 'w']);
        }
        if starts_with_word(s, c, "num") {
            Some(RofiCommand::Count)
        } else if starts_with_word(s, c, "list") {
            Some(RofiCommand::List)
        } else if starts_with_word(s, c, "del") {
            match read_id(s, c) {
                Some(id) => Some(RofiCommand::DeleteOne(id)),
                None => None,
            }
        } else if starts_with_word(s, c, "dels") {
            match read_id(s, c) {
                Some(id) => Some(RofiCommand::DeleteSimilar(id)),
                None => None,
            }
        } else if starts_with_word(s, c, "dela") {
            if c < n {
                let rest = s.substring_char(c + 1, n);
                let app_name = trim(rest);
                Some(RofiCommand::DeleteApps(String::from_str(app_name)))
            } else {
                None
            }
        } else if starts_with_word(s, c, "saw") {
            match read_id(s, c) {
                Some(id) => Some(RofiCommand::MarkSeen(id)),
                None => None,
            }
        } else {
            None
        }
    }
}

/// What the server writes back to a client.
#[derive(Debug)]
pub enum Reply {
    /// A text, written as it is.
    Text(String),
    /// The notifications, written as an array of records.
    Records(Vec<Notification>),
    /// Nothing: the connection is simply closed.
    Nothing,
}

/// The records after removing every record of the application of the first
/// record with the given id, when there is one and its application is not empty.
pub open spec fn without_similar(s: Seq<Notification>, id: u32) -> Seq<Notification> {
    let i = first_index(s, id);
    if 0 <= i < s.len() && s[i].application@.len() > 0 {
        without_app(s, s[i].application@)
    } else {
        s
    }
}

/// The records after a request is carried out.
pub open spec fn after_command(s: Seq<Notification>, c: CommandView) -> Seq<Notification> {
    match c {
        CommandView::Count => s,
        CommandView::List => s,
        CommandView::DeleteOne(id) => without_id(s, id),
        CommandView::DeleteSimilar(id) => without_similar(s, id),
        CommandView::DeleteApps(app) => without_app(s, app),
        CommandView::MarkSeen(id) => with_urgency(s, id, Urgency::Normal),
    }
}

/// The reply to a request on the given records: the decimal count, the
/// records themselves, or nothing.
pub open spec fn reply_for(r: Reply, s: Seq<Notification>, c: CommandView) -> bool {
    match c {
        CommandView::Count => r is Text && r->Text_0@ == decimal(s.len()),
        CommandView::List => r is Records && views(r->Records_0@) == views(s),
        _ => r is Nothing,
    }
}

/// The kind of reply a request gets, whatever the records: a decimal number
/// for a count, records for a listing, nothing for the others.
pub open spec fn reply_shape(r: Reply, c: CommandView) -> bool {
    match c {
        CommandView::Count => r is Text && exists|n: nat| r->Text_0@ == decimal(n),
        CommandView::List => r is Records,
        _ => r is Nothing,
    }
}

impl NotificationList {
    /// Carries out a request on the notifications and returns the reply.
    pub fn execute(&mut self, cmd: RofiCommand) -> (r: Reply)
        ensures
            final(self)@ == after_command(old(self)@, cmd@),
            reply_for(r, old(self)@, cmd@),
    {
        match cmd {
            RofiCommand::Count => Reply::Text(decimal_text(self.count())),
            RofiCommand::List => Reply::Records(self.items()),
            RofiCommand::DeleteOne(id) => {
                self.delete(id);
                Reply::Nothing
            },
            RofiCommand::DeleteApps(app_name) => {
                self.delete_from_app(app_name.as_str());
                Reply::Nothing
            },
            RofiCommand::DeleteSimilar(id) => {
                let i = self.position(id);
                proof {
                    lemma_first_index_bounds(self@, id);
                }
                if i < self.count() {
                    let app_name = self.get(i).application.clone();
                    if app_name.as_str().unicode_len() > 0 {
                        self.delete_from_app(app_name.as_str());
                    }
                }
                Reply::Nothing
            },
            RofiCommand::MarkSeen(id) => {
                self.set_urgency(id, Urgency::Normal);
                Reply::Nothing
            },
        }
    }
}

/// Provides service to rofication clients over a local socket.
pub struct RofiServer {
    socket_path: String,
    db: NotificationStore,
}

impl RofiServer {
    /// The path of the socket the server listens on.
    pub closed spec fn spec_socket_path(&self) -> Seq<char> {
        self.socket_path@
    }

    /// The store the server answers from.
    pub closed spec fn spec_db(&self) -> NotificationStore {
        self.db
    }

    /// Create a new server instance
    pub fn new(socket_path: String, db: NotificationStore) -> (r: RofiServer)
        ensures
            r.spec_socket_path() == socket_path@,
            r.spec_db() == db,
    {
        RofiServer { socket_path, db }
    }

    /// The path of the socket the server listens on.
    pub fn socket_path(&self) -> (r: &str)
        ensures
            r@ == self.spec_socket_path(),
    {
        self.socket_path.as_str()
    }

    /// Answers one request line: trims it and parses it; a line that does not
    /// parse gets no reply (`None`), any other is carried out on the store.
    pub fn handle_request(&self, line: &str) -> (r: Option<Reply>)
        ensures
            match command_of(trimmed(line@)) {
                Some(c) => r is Some && reply_shape(r->0, c),
                None => r is None,
            },
    {
        let line = trim(line);
        match RofiCommand::parse(line) {
            Some(command) => Some(self.execute_command(command)),
            None => None,
        }
    }

    /// Carries out a request on the store, under its write lock, so that
    /// `NotificationList::execute` applies to the records as they are then.
    pub fn execute_command(&self, cmd: RofiCommand) -> (r: Reply)
        ensures
            reply_shape(r, cmd@),
    {
        let ghost c = cmd@;
        let (mut list, handle) = self.db.ds_write();
        let ghost before = list@;
        let reply = list.execute(cmd);
        proof {
            if c is Count {
                assert(reply->Text_0@ == decimal(before.len()));
            }
        }
        handle.release_write(list);
        reply
    }
}

} // verus!
