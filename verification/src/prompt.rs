//! The login form: what the user has entered, what the form shows, and how
//! both change with each event.
//!
//! The form owns no widget. Its caller feeds it the events of the toolkit
//! as [`Msg`] values, shows the fields of the [`Model`] after each, and
//! starts a login attempt whenever [`Model::update`] hands out
//! [`Credentials`].
use crate::login_manager::{LoginResult, LoginResultView};
use vstd::prelude::*;
use vstd::string::*;

verus! {

/// How long, in milliseconds, the outcome of an attempt is held back before
/// it is delivered to the form, so that attempts cannot follow each other
/// faster than this.
pub const SETTLE_MILLIS: u64 = 1000;

/// The identifier of the entry that stands for "some other account": with
/// it selected, the account name is typed by the user.
pub open spec fn other_id() -> Seq<char> {
    "*other"@
}

/// The label of the entry that stands for "some other account".
pub open spec fn other_label() -> Seq<char> {
    "Other..."@
}

/// What the account directory tells about one account. A field is `None`
/// where the directory gave no text for it.
#[derive(Debug, Clone, PartialEq, Eq)]
pub struct UserRecord {
    pub user_name: Option<String>,
    pub real_name: Option<String>,
}

/// The mathematical content of a [`UserRecord`].
pub struct UserRecordView {
    pub user_name: Option<Seq<char>>,
    pub real_name: Option<Seq<char>>,
}

/// The view of a text that may be missing.
pub open spec fn text_view(text: Option<String>) -> Option<Seq<char>> {
    match text {
        Some(text) => Some(text@),
        None => None,
    }
}

impl View for UserRecord {
    type V = UserRecordView;

    open spec fn view(&self) -> UserRecordView {
        UserRecordView {
            user_name: text_view(self.user_name),
            real_name: text_view(self.real_name),
        }
    }
}

/// One entry of the account list: the account to log in as, and the name
/// shown for it.
#[derive(Debug, Clone, PartialEq, Eq)]
pub struct Entry {
    pub id: String,
    pub display: String,
}

/// The mathematical content of an [`Entry`].
pub struct EntryView {
    pub id: Seq<char>,
    pub display: Seq<char>,
}

impl View for Entry {
    type V = EntryView;

    open spec fn view(&self) -> EntryView {
        EntryView { id: self.id@, display: self.display@ }
    }
}

/// The row of the account list that an event reports as selected.
#[derive(Debug, Clone, PartialEq, Eq)]
pub enum Selection {
    /// No row is selected.
    Nothing,
    /// A row is selected, but its identifier could not be read.
    Unreadable,
    /// The row with this identifier is selected.
    Row(String),
}

/// The mathematical content of a [`Selection`].
pub enum SelectionView {
    Nothing,
    Unreadable,
    Row(Seq<char>),
}

impl View for Selection {
    type V = SelectionView;

    open spec fn view(&self) -> SelectionView {
        match *self {
            Selection::Nothing => SelectionView::Nothing,
            Selection::Unreadable => SelectionView::Unreadable,
            Selection::Row(id) => SelectionView::Row(id@),
        }
    }
}

/// An event of the form.
#[derive(Debug, Clone, PartialEq, Eq)]
pub enum Msg {
    /// The user changed the account name.
    OnUsernameChange(String),
    /// The user changed the password.
    OnPasswordChange(String),
    /// A login attempt ended with a message of the broker.
    OnLoginSuccess(String),
    /// A login attempt failed.
    OnLoginFail(String),
    /// The selection in the account list changed.
    OnSelectionChanged(Selection),
    /// The user asked to log in.
    OnSubmit,
    /// The user asked to start over.
    OnCancel,
}

/// The mathematical content of a [`Msg`].
pub enum MsgView {
    OnUsernameChange(Seq<char>),
    OnPasswordChange(Seq<char>),
    OnLoginSuccess(Seq<char>),
    OnLoginFail(Seq<char>),
    OnSelectionChanged(SelectionView),
    OnSubmit,
    OnCancel,
}

impl View for Msg {
    type V = MsgView;

    open spec fn view(&self) -> MsgView {
        match *self {
            Msg::OnUsernameChange(text) => MsgView::OnUsernameChange(text@),
            Msg::OnPasswordChange(text) => MsgView::OnPasswordChange(text@),
            Msg::OnLoginSuccess(text) => MsgView::OnLoginSuccess(text@),
            Msg::OnLoginFail(text) => MsgView::OnLoginFail(text@),
            Msg::OnSelectionChanged(selection) => MsgView::OnSelectionChanged(selection@),
            Msg::OnSubmit => MsgView::OnSubmit,
            Msg::OnCancel => MsgView::OnCancel,
        }
    }
}

/// The account and password that a login attempt is made with.
#[derive(Debug, Clone, PartialEq, Eq)]
pub struct Credentials {
    pub username: String,
    pub password: String,
}

/// The mathematical content of [`Credentials`].
pub struct CredentialsView {
    pub username: Seq<char>,
    pub password: Seq<char>,
}

impl View for Credentials {
    type V = CredentialsView;

    open spec fn view(&self) -> CredentialsView {
        CredentialsView { username: self.username@, password: self.password@ }
    }
}

/// The state of the form.
#[derive(Debug, Clone, PartialEq, Eq)]
pub struct Model {
    /// The account name that the user typed.
    pub username: String,
    /// The password that the user typed.
    pub password: String,
    /// The identifier of the selected entry of the account list.
    pub selected_user: String,
    /// The accounts that the directory listed when the form was made.
    pub cached_users: Vec<UserRecord>,
    /// Whether a login attempt is under way.
    pub is_submitting: bool,
    /// Whether the account name is typed rather than selected.
    pub other_login: bool,
    /// The message shown; nothing is shown while it is empty.
    pub info_msg: String,
}

/// The mathematical content of a [`Model`].
pub struct ModelView {
    pub username: Seq<char>,
    pub password: Seq<char>,
    pub selected_user: Seq<char>,
    pub cached_users: Seq<UserRecordView>,
    pub is_submitting: bool,
    pub other_login: bool,
    pub info_msg: Seq<char>,
}

/// The views of a list of records.
pub open spec fn records_view(records: Seq<UserRecord>) -> Seq<UserRecordView> {
    records.map_values(|record: UserRecord| record@)
}

/// The views of a list of entries.
pub open spec fn entries_view(entries: Seq<Entry>) -> Seq<EntryView> {
    entries.map_values(|entry: Entry| entry@)
}

impl View for Model {
    type V = ModelView;

    open spec fn view(&self) -> ModelView {
        ModelView {
            username: self.username@,
            password: self.password@,
            selected_user: self.selected_user@,
            cached_users: records_view(self.cached_users@),
            is_submitting: self.is_submitting,
            other_login: self.other_login,
            info_msg: self.info_msg@,
        }
    }
}

/// The entry that the account list shows for a record: an account is
/// listed where the directory gave both its name and its real name, and
/// is shown by its real name unless that is empty.
pub open spec fn entry_of(record: UserRecordView) -> Option<EntryView> {
    match (record.user_name, record.real_name) {
        (Some(id), Some(name)) => Some(
            EntryView { id, display: if name.len() == 0 { id } else { name } },
        ),
        _ => None,
    }
}

/// The entries of the records that are listed, in the order of the
/// records.
pub open spec fn listed(records: Seq<UserRecordView>) -> Seq<EntryView>
    decreases records.len(),
{
    if records.len() == 0 {
        Seq::empty()
    } else {
        match entry_of(records.last()) {
            Some(entry) => listed(records.drop_last()).push(entry),
            None => listed(records.drop_last()),
        }
    }
}

/// The account list: the listed accounts, then the entry for "some other
/// account".
pub open spec fn choices(records: Seq<UserRecordView>) -> Seq<EntryView> {
    listed(records).push(EntryView { id: other_id(), display: other_label() })
}

impl ModelView {
    /// The form as it is first shown, with the accounts that the directory
    /// listed.
    pub open spec fn initial(cached_users: Seq<UserRecordView>) -> ModelView {
        ModelView {
            username: Seq::empty(),
            password: Seq::empty(),
            selected_user: Seq::empty(),
            cached_users,
            is_submitting: false,
            other_login: false,
            info_msg: Seq::empty(),
        }
    }

    /// The form with what the user typed, and the message, wiped.
    pub open spec fn cleared(self) -> ModelView {
        ModelView {
            username: Seq::empty(),
            password: Seq::empty(),
            info_msg: Seq::empty(),
            ..self
        }
    }

    /// The account that an attempt is made for: the typed name where the
    /// entry for "some other account" is selected, else the selected
    /// account.
    pub open spec fn login_name(self) -> Seq<char> {
        if self.selected_user == other_id() {
            self.username
        } else {
            self.selected_user
        }
    }

    /// The form after `event`.
    ///
    /// * A change of a field is taken over.
    /// * A request to log in is ignored while an attempt is under way. It
    ///   is answered with a reminder where the account name has to be typed
    ///   and is empty, or else where the password is empty. Otherwise the
    ///   message is wiped and an attempt is under way.
    /// * A request to start over is ignored while an attempt is under way;
    ///   otherwise it wipes what the user typed and the message.
    /// * The end of an attempt shows its message, and no attempt is under
    ///   way.
    /// * A change of selection wipes what the user typed and the message.
    ///   A row that can be read becomes the selected account, and decides
    ///   whether the name has to be typed; with no row the selection is
    ///   empty; a row that cannot be read leaves the selection as it was.
    pub open spec fn update(self, event: MsgView) -> ModelView {
        match event {
            MsgView::OnUsernameChange(text) => ModelView { username: text, ..self },
            MsgView::OnPasswordChange(text) => ModelView { password: text, ..self },
            MsgView::OnSubmit => if self.is_submitting {
                self
            } else if self.other_login && self.username.len() == 0 {
                ModelView { info_msg: "Enter your username"@, ..self }
            } else if self.password.len() == 0 {
                ModelView { info_msg: "Enter your password"@, ..self }
            } else {
                ModelView { info_msg: Seq::empty(), is_submitting: true, ..self }
            },
            MsgView::OnCancel => if self.is_submitting {
                self
            } else {
                self.cleared()
            },
            MsgView::OnLoginSuccess(text) => ModelView {
                is_submitting: false,
                info_msg: text,
                ..self
            },
            MsgView::OnLoginFail(text) => ModelView { is_submitting: false, info_msg: text, ..self },
            MsgView::OnSelectionChanged(selection) => match selection {
                SelectionView::Nothing => ModelView {
                    selected_user: Seq::empty(),
                    ..self.cleared()
                },
                SelectionView::Unreadable => self.cleared(),
                SelectionView::Row(id) => ModelView {
                    selected_user: id,
                    other_login: id == other_id(),
                    ..self.cleared()
                },
            },
        }
    }

    /// The credentials of the attempt that `event` starts, if it starts
    /// one: a request to log in does, where no attempt is under way and
    /// neither a needed account name nor the password is missing.
    pub open spec fn starts(self, event: MsgView) -> Option<CredentialsView> {
        if event is OnSubmit && !self.is_submitting && !(self.other_login && self.username.len()
            == 0) && self.password.len() != 0 {
            Some(CredentialsView { username: self.login_name(), password: self.password })
        } else {
            None
        }
    }
}

/// The identifier of the entry that stands for "some other account".
pub fn other_entry_id() -> (id: String)
    ensures
        id@ == other_id(),
{
    String::from_str("*other")
}

/// The entry that the account list shows for a record, if it shows one.
pub fn user_entry(record: &UserRecord) -> (entry: Option<Entry>)
    ensures
        match entry {
            Some(entry) => entry_of(record@) == Some(entry@),
            None => entry_of(record@) is None,
        },
{
    match (&record.user_name, &record.real_name) {
        (Some(id), Some(name)) => {
            let display = if name.as_str().is_empty() {
                id.clone()
            } else {
                name.clone()
            };
            Some(Entry { id: id.clone(), display })
        },
        _ => None,
    }
}

/// The event that tells the form how a login attempt ended.
pub open spec fn outcome_event(result: LoginResultView) -> MsgView {
    match result {
        LoginResultView::Succuessful(text) => MsgView::OnLoginSuccess(text),
        LoginResultView::Failure(text) => MsgView::OnLoginFail(text),
    }
}

/// The event that tells the form how a login attempt ended.
pub fn outcome_message(result: LoginResult) -> (event: Msg)
    ensures
        event@ == outcome_event(result@),
{
    match result {
        LoginResult::Succuessful(text) => Msg::OnLoginSuccess(text),
        LoginResult::Failure(text) => Msg::OnLoginFail(text),
    }
}

/// What the worker that made an attempt does with its outcome: it waits
/// for `delay_millis` milliseconds, then sends `message` to the form.
#[derive(Debug, Clone, PartialEq, Eq)]
pub struct Delivery {
    pub delay_millis: u64,
    pub message: Msg,
}

/// How the outcome of an attempt reaches the form: after the settle
/// interval, as the event that carries its message.
pub fn delivery(result: LoginResult) -> (plan: Delivery)
    ensures
        plan.delay_millis == SETTLE_MILLIS,
        plan.message@ == outcome_event(result@),
{
    Delivery { delay_millis: SETTLE_MILLIS, message: outcome_message(result) }
}

impl Model {
    /// The form as it is first shown. `listing` is what the account
    /// directory listed; a directory that could not be asked lists nothing.
    pub fn new(listing: Option<Vec<UserRecord>>) -> (model: Model)
        ensures
            model@ == ModelView::initial(
                match listing {
                    Some(records) => records_view(records@),
                    None => Seq::empty(),
                },
            ),
    {
        let cached_users = match listing {
            Some(records) => records,
            None => Vec::new(),
        };
        let model = Model {
            username: String::new(),
            password: String::new(),
            selected_user: String::new(),
            cached_users,
            is_submitting: false,
            other_login: false,
            info_msg: String::new(),
        };
        assert(model@.cached_users =~= match listing {
            Some(records) => records_view(records@),
            None => Seq::empty(),
        });
        model
    }

    /// The account list to offer: the listed accounts in the order of the
    /// directory, then the entry for "some other account".
    pub fn user_entries(&self) -> (entries: Vec<Entry>)
        ensures
            entries_view(entries@) == choices(self@.cached_users),
    {
        let mut entries: Vec<Entry> = Vec::new();
        let mut i: usize = 0;
        assert(self@.cached_users.take(0) =~= Seq::empty());
        while i < self.cached_users.len()
            invariant
                i <= self.cached_users.len(),
                entries_view(entries@) == listed(self@.cached_users.take(i as int)),
            decreases self.cached_users.len() - i,
        {
            let ghost before = entries_view(entries@);
            let ghost prefix = self@.cached_users.take(i as int + 1);
            assert(prefix.drop_last() =~= self@.cached_users.take(i as int));
            assert(prefix.last() == self.cached_users@[i as int]@);
            match user_entry(&self.cached_users[i]) {
                Some(entry) => {
                    entries.push(entry);
                    assert(entries_view(entries@) =~= before.push(entry@));
                },
                None => {},
            }
            i = i + 1;
        }
        assert(self@.cached_users.take(i as int) =~= self@.cached_users);
        let ghost before = entries_view(entries@);
        let last = Entry { id: other_entry_id(), display: String::from_str("Other...") };
        entries.push(last);
        assert(entries_view(entries@) =~= before.push(last@));
        entries
    }

    /// The account that an attempt is made for.
    pub fn login_name(&self) -> (name: String)
        ensures
            name@ == self@.login_name(),
    {
        if self.selected_user == other_entry_id() {
            self.username.clone()
        } else {
            self.selected_user.clone()
        }
    }

    /// Wipes what the user typed, and the message.
    pub fn clear_fields(&mut self)
        ensures
            final(self)@ == old(self)@.cleared(),
    {
        self.info_msg = String::new();
        self.username = String::new();
        self.password = String::new();
    }

    /// Takes an event of the form. Where the event starts a login attempt,
    /// the credentials to make it with are handed out.
    pub fn update(&mut self, event: Msg) -> (attempt: Option<Credentials>)
        ensures
            final(self)@ == old(self)@.update(event@),
            match attempt {
                Some(credentials) => old(self)@.starts(event@) == Some(credentials@),
                None => old(self)@.starts(event@) is None,
            },
    {
        match event {
            Msg::OnUsernameChange(text) => {
                self.username = text;
                None
            },
            Msg::OnPasswordChange(text) => {
                self.password = text;
                None
            },
            Msg::OnSubmit => {
                if self.is_submitting {
                    return None;
                }
                if self.other_login && self.username.as_str().is_empty() {
                    self.info_msg = String::from_str("Enter your username");
                    return None;
                } else if self.password.as_str().is_empty() {
                    self.info_msg = String::from_str("Enter your password");
                    return None;
                }
                self.info_msg = String::new();
                self.is_submitting = true;
                Some(Credentials { username: self.login_name(), password: self.password.clone() })
            },
            Msg::OnCancel => {
                if !self.is_submitting {
                    self.clear_fields();
                }
                None
            },
            Msg::OnLoginSuccess(text) => {
                self.is_submitting = false;
                self.info_msg = text;
                None
            },
            Msg::OnLoginFail(text) => {
                self.is_submitting = false;
                self.info_msg = text;
                None
            },
            Msg::OnSelectionChanged(selection) => {
                self.clear_fields();
                match selection {
                    Selection::Nothing => {
                        self.selected_user = String::new();
                    },
                    Selection::Unreadable => {},
                    Selection::Row(id) => {
                        self.other_login = id == other_entry_id();
                        self.selected_user = id;
                    },
                }
                None
            },
        }
    }
}

/// At most one attempt is under way: while one is, no event starts
/// another, and a request to log in or to start over changes nothing.
pub proof fn law_one_attempt_at_a_time(model: ModelView, event: MsgView)
    requires
        model.is_submitting,
    ensures
        model.starts(event) is None,
        event is OnSubmit || event is OnCancel ==> model.update(event) == model,
{
}

/// An event starts an attempt exactly when it turns a form with no attempt
/// under way into one with an attempt under way; the attempt is made with
/// a password that is not empty, and the message is wiped.
pub proof fn law_attempt_starts_with_flag(model: ModelView, event: MsgView)
    ensures
        model.starts(event) is Some <==> !model.is_submitting && model.update(event).is_submitting,
        model.starts(event) matches Some(credentials) ==> credentials.password.len() > 0
            && model.update(event).info_msg.len() == 0,
{
}

/// The end of an attempt, whichever way, lets the next one start: no
/// attempt is under way after its event, and its message is shown.
pub proof fn law_outcome_releases_form(model: ModelView, result: LoginResultView)
    ensures
        !model.update(outcome_event(result)).is_submitting,
        model.update(outcome_event(result)).info_msg == match result {
            LoginResultView::Succuessful(text) => text,
            LoginResultView::Failure(text) => text,
        },
{
}

} // verus!
