//! The chat search of the sidebar. The search asks the chat service four
//! times in turn; this module decides what each answer adds to the result
//! list and what to ask next.

use vstd::prelude::*;
use crate::text::chars_of;

verus! {

/// The most chats and users that the searches after the local one gather.
pub const MAX_KNOWN_CHATS: i32 = 50;

/// The limit of the local chat search.
pub const LOCAL_SEARCH_LIMIT: i32 = 30;

/// The headings of the result list.
#[derive(PartialEq, Eq, Structural, Clone, Copy, Debug)]
pub enum SectionType {
    Chats,
    Recent,
    Global,
}

/// An entry of the result list.
#[derive(PartialEq, Eq, Structural, Clone, Copy, Debug)]
pub enum SearchItem {
    Section(SectionType),
    Chat(i64),
    User(i64),
}

/// What the search asks for next.
#[derive(PartialEq, Eq, Structural, Clone, Copy, Debug)]
pub enum SearchRequest {
    /// Chats known locally (the recently found ones for an empty query).
    Chats { limit: i32 },
    /// Chats known to the server.
    ChatsOnServer { limit: i32 },
    /// Contacts.
    Contacts { limit: i32 },
    /// Public chats.
    PublicChats,
    /// Nothing: the search is over.
    Done,
}

/// Which page the sidebar search shows.
#[derive(PartialEq, Eq, Structural, Clone, Copy, Debug)]
pub enum SearchPage {
    Results,
    Empty,
}

/// The identifiers of `ids` that `found` does not hold, in order.
pub open spec fn unseen(found: Seq<i64>, ids: Seq<i64>) -> Seq<i64>
    decreases ids.len(),
{
    if ids.len() == 0 {
        Seq::empty()
    } else if found.contains(ids[0]) {
        unseen(found, ids.skip(1))
    } else {
        seq![ids[0]] + unseen(found, ids.skip(1))
    }
}

/// The identifiers of `ids` taken in order, each one unless `found` or an
/// earlier one of `ids` already holds it.
pub open spec fn fresh(found: Seq<i64>, ids: Seq<i64>) -> Seq<i64>
    decreases ids.len(),
{
    if ids.len() == 0 {
        Seq::empty()
    } else if found.contains(ids[0]) {
        fresh(found, ids.skip(1))
    } else {
        seq![ids[0]] + fresh(found.push(ids[0]), ids.skip(1))
    }
}

/// Chats, as result entries.
pub open spec fn chat_items(ids: Seq<i64>) -> Seq<SearchItem> {
    ids.map_values(|id: i64| SearchItem::Chat(id))
}

/// Users, as result entries.
pub open spec fn user_items(ids: Seq<i64>) -> Seq<SearchItem> {
    ids.map_values(|id: i64| SearchItem::User(id))
}

/// Whether `v` holds `x`.
pub(crate) fn contains_id(v: &Vec<i64>, x: i64) -> (b: bool)
    ensures
        b == v@.contains(x),
{
    let mut i: usize = 0;
    while i < v.len()
        invariant
            i <= v.len(),
            forall|j: int| 0 <= j < i ==> v@[j] != x,
        decreases v.len() - i,
    {
        if v[i] == x {
            assert(v@[i as int] == x);
            return true;
        }
        i = i + 1;
    }
    false
}

/// The search in progress: the result list and the chats and users found so
/// far (by every search but the one for public chats).
pub struct ChatSearch {
    pub query_is_empty: bool,
    pub items: Vec<SearchItem>,
    pub found: Vec<i64>,
}

/// The result of a request: the identifiers it gave, none when it failed
/// or gave nothing.
pub open spec fn ids_of(result: Option<Vec<i64>>) -> Seq<i64> {
    match result {
        Some(v) => v@,
        None => Seq::empty(),
    }
}

impl ChatSearch {
    /// Starts a search. When the title of the own chat matches a nonempty
    /// query and the own chat is known, the list opens with it under the
    /// "Chats" heading. The local chat search comes next.
    pub fn start(query_is_empty: bool, saved_messages_matches: bool, own_chat: Option<i64>) -> (r: (ChatSearch, SearchRequest))
        ensures
            r.0.query_is_empty == query_is_empty,
            (!query_is_empty && saved_messages_matches && own_chat is Some) ==> r.0.items@ == seq![SearchItem::Section(SectionType::Chats), SearchItem::Chat(own_chat->0)]
                && r.0.found@ == seq![own_chat->0],
            !(!query_is_empty && saved_messages_matches && own_chat is Some) ==> r.0.items@ == Seq::<SearchItem>::empty()
                && r.0.found@ == Seq::<i64>::empty(),
            r.1 == (SearchRequest::Chats { limit: LOCAL_SEARCH_LIMIT }),
    {
        let mut items: Vec<SearchItem> = Vec::new();
        let mut found: Vec<i64> = Vec::new();
        if !query_is_empty && saved_messages_matches {
            if let Some(id) = own_chat {
                items.push(SearchItem::Section(SectionType::Chats));
                found.push(id);
                items.push(SearchItem::Chat(id));
            }
        }
        (ChatSearch { query_is_empty, items, found }, SearchRequest::Chats { limit: LOCAL_SEARCH_LIMIT })
    }

    /// The page to show for the current results.
    pub fn page(&self) -> (p: SearchPage)
        ensures
            p == (if self.items@.len() > 0 { SearchPage::Results } else { SearchPage::Empty }),
    {
        if self.items.len() > 0 {
            SearchPage::Results
        } else {
            SearchPage::Empty
        }
    }

    /// Appends the chats of `ids` that `found` does not hold, and gives them.
    fn append_unseen(&mut self, ids: &Vec<i64>, users: bool) -> (added: Vec<i64>)
        ensures
            added@ == unseen(old(self).found@, ids@),
            final(self).found == old(self).found,
            final(self).query_is_empty == old(self).query_is_empty,
            final(self).items@ == old(self).items@ + (if users { user_items(added@) } else { chat_items(added@) }),
    {
        let mut added: Vec<i64> = Vec::new();
        let mut i: usize = 0;
        assert(ids@.skip(0) =~= ids@);
        assert(added@ + unseen(self.found@, ids@) =~= unseen(self.found@, ids@));
        assert(added@ + fresh(self.found@, ids@) =~= fresh(self.found@, ids@));
        assert(user_items(added@) =~= Seq::<SearchItem>::empty());
        assert(chat_items(added@) =~= Seq::<SearchItem>::empty());
        assert(self.items@ + Seq::<SearchItem>::empty() =~= self.items@);
        while i < ids.len()
            invariant
                i <= ids.len(),
                self.found == old(self).found,
                self.query_is_empty == old(self).query_is_empty,
                unseen(self.found@, ids@) == added@ + unseen(self.found@, ids@.skip(i as int)),
                self.items@ == old(self).items@ + (if users { user_items(added@) } else { chat_items(added@) }),
            decreases ids.len() - i,
        {
            let id = ids[i];
            assert(ids@.skip(i as int).skip(1) =~= ids@.skip(i + 1));
            assert(ids@.skip(i as int)[0] == id);
            if !contains_id(&self.found, id) {
                added.push(id);
                if users {
                    self.items.push(SearchItem::User(id));
                } else {
                    self.items.push(SearchItem::Chat(id));
                }
                assert(user_items(added@) =~= user_items(added@.drop_last()).push(SearchItem::User(id)));
                assert(chat_items(added@) =~= chat_items(added@.drop_last()).push(SearchItem::Chat(id)));
                assert(added@ + unseen(self.found@, ids@.skip(i + 1)) =~= added@.drop_last() + (seq![id] + unseen(self.found@, ids@.skip(i + 1))));
            }
            i = i + 1;
        }
        assert(ids@.skip(i as int) =~= Seq::<i64>::empty());
        assert(added@ + Seq::<i64>::empty() =~= added@);
        added
    }

    /// Appends the entries of `ids` that are new: neither in `found` nor
    /// earlier in `ids`; each is added to `found` as well.
    fn append_fresh(&mut self, ids: &Vec<i64>, users: bool) -> (added: Vec<i64>)
        ensures
            added@ == fresh(old(self).found@, ids@),
            final(self).found@ == old(self).found@ + added@,
            final(self).query_is_empty == old(self).query_is_empty,
            final(self).items@ == old(self).items@ + (if users { user_items(added@) } else { chat_items(added@) }),
    {
        let mut added: Vec<i64> = Vec::new();
        let mut i: usize = 0;
        assert(ids@.skip(0) =~= ids@);
        assert(added@ + unseen(self.found@, ids@) =~= unseen(self.found@, ids@));
        assert(added@ + fresh(self.found@, ids@) =~= fresh(self.found@, ids@));
        assert(user_items(added@) =~= Seq::<SearchItem>::empty());
        assert(chat_items(added@) =~= Seq::<SearchItem>::empty());
        assert(self.items@ + Seq::<SearchItem>::empty() =~= self.items@);
        while i < ids.len()
            invariant
                i <= ids.len(),
                self.found@ == old(self).found@ + added@,
                self.query_is_empty == old(self).query_is_empty,
                fresh(old(self).found@, ids@) == added@ + fresh(self.found@, ids@.skip(i as int)),
                self.items@ == old(self).items@ + (if users { user_items(added@) } else { chat_items(added@) }),
            decreases ids.len() - i,
        {
            let id = ids[i];
            assert(ids@.skip(i as int).skip(1) =~= ids@.skip(i + 1));
            assert(ids@.skip(i as int)[0] == id);
            if !contains_id(&self.found, id) {
                let ghost before = self.found@;
                added.push(id);
                self.found.push(id);
                if users {
                    self.items.push(SearchItem::User(id));
                } else {
                    self.items.push(SearchItem::Chat(id));
                }
                assert(user_items(added@) =~= user_items(added@.drop_last()).push(SearchItem::User(id)));
                assert(chat_items(added@) =~= chat_items(added@.drop_last()).push(SearchItem::Chat(id)));
                assert(self.found@ == before.push(id));
                assert(added@ + fresh(self.found@, ids@.skip(i + 1)) =~= added@.drop_last() + (seq![id] + fresh(before.push(id), ids@.skip(i + 1))));
            }
            i = i + 1;
        }
        assert(ids@.skip(i as int) =~= Seq::<i64>::empty());
        assert(added@ + Seq::<i64>::empty() =~= added@);
        added
    }

    /// Takes the answer of the local chat search. Its chats come under the
    /// "Recent" heading for an empty query and "Chats" otherwise, without
    /// those found already; all of its identifiers count as found. An empty
    /// query ends the search here; otherwise the server is asked for up to
    /// as many chats as are still missing to the maximum.
    pub fn local_chats(&mut self, result: Option<Vec<i64>>) -> (next: SearchRequest)
        requires
            old(self).found@.len() <= 0x1000_0000,
            ids_of(result).len() <= 0x1000_0000,
        ensures
            final(self).query_is_empty == old(self).query_is_empty,
            ids_of(result).len() > 0 ==> final(self).items@ == old(self).items@
                + seq![SearchItem::Section(if old(self).query_is_empty { SectionType::Recent } else { SectionType::Chats })]
                + chat_items(unseen(old(self).found@, ids_of(result)))
                && final(self).found@ == old(self).found@ + ids_of(result),
            ids_of(result).len() == 0 ==> final(self).items == old(self).items && final(self).found == old(self).found,
            next == (if old(self).query_is_empty {
                SearchRequest::Done
            } else {
                SearchRequest::ChatsOnServer { limit: (MAX_KNOWN_CHATS - final(self).found@.len()) as i32 }
            }),
    {
        if let Some(ids) = result {
            if ids.len() > 0 {
                let section = if self.query_is_empty { SectionType::Recent } else { SectionType::Chats };
                self.items.push(SearchItem::Section(section));
                let ghost mid = self.items@;
                let _ = self.append_unseen(&ids, false);
                let mut k: usize = 0;
                let ghost start = self.found@;
                while k < ids.len()
                    invariant
                        k <= ids.len(),
                        self.found@ == start + ids@.take(k as int),
                        self.items@ == old(self).items@ + seq![SearchItem::Section(section)] + chat_items(unseen(old(self).found@, ids@)),
                        self.query_is_empty == old(self).query_is_empty,
                        start == old(self).found@,
                    decreases ids.len() - k,
                {
                    self.found.push(ids[k]);
                    k = k + 1;
                    assert(self.found@ =~= start + ids@.take(k as int));
                }
                assert(ids@.take(k as int) =~= ids@);
            }
        }
        if self.query_is_empty {
            SearchRequest::Done
        } else {
            SearchRequest::ChatsOnServer { limit: MAX_KNOWN_CHATS - self.found.len() as i32 }
        }
    }

    /// Takes the answer of the server's chat search: its new chats are
    /// added, under the "Chats" heading if nothing was found before. When
    /// the chats found reach the maximum, the search ends; otherwise the
    /// contacts are searched for the rest.
    pub fn chats_on_server(&mut self, result: Option<Vec<i64>>) -> (next: SearchRequest)
        requires
            old(self).found@.len() + ids_of(result).len() <= 0x1000_0000,
        ensures
            final(self).query_is_empty == old(self).query_is_empty,
            ids_of(result).len() > 0 ==> final(self).items@ == old(self).items@
                + (if old(self).found@.len() == 0 { seq![SearchItem::Section(SectionType::Chats)] } else { Seq::empty() })
                + chat_items(fresh(old(self).found@, ids_of(result)))
                && final(self).found@ == old(self).found@ + fresh(old(self).found@, ids_of(result)),
            ids_of(result).len() == 0 ==> final(self).items == old(self).items && final(self).found == old(self).found,
            next == (if final(self).found@.len() >= MAX_KNOWN_CHATS {
                SearchRequest::Done
            } else {
                SearchRequest::Contacts { limit: (MAX_KNOWN_CHATS - final(self).found@.len()) as i32 }
            }),
    {
        self.fresh_answer(result, false);
        if self.found.len() >= MAX_KNOWN_CHATS as usize {
            SearchRequest::Done
        } else {
            SearchRequest::Contacts { limit: MAX_KNOWN_CHATS - self.found.len() as i32 }
        }
    }

    fn fresh_answer(&mut self, result: Option<Vec<i64>>, users: bool)
        requires
            old(self).found@.len() + ids_of(result).len() <= 0x1000_0000,
        ensures
            final(self).query_is_empty == old(self).query_is_empty,
            ids_of(result).len() > 0 ==> final(self).items@ == old(self).items@
                + (if old(self).found@.len() == 0 { seq![SearchItem::Section(SectionType::Chats)] } else { Seq::empty() })
                + (if users { user_items(fresh(old(self).found@, ids_of(result))) } else { chat_items(fresh(old(self).found@, ids_of(result))) })
                && final(self).found@ == old(self).found@ + fresh(old(self).found@, ids_of(result)),
            ids_of(result).len() == 0 ==> final(self).items == old(self).items && final(self).found == old(self).found,
            final(self).found@.len() <= old(self).found@.len() + ids_of(result).len(),
    {
        proof {
            lemma_fresh_len(self.found@, ids_of(result));
        }
        if let Some(ids) = result {
            if ids.len() > 0 {
                let was_empty = self.found.len() == 0;
                if was_empty {
                    self.items.push(SearchItem::Section(SectionType::Chats));
                }
                let ghost mid = self.items@;
                let _ = self.append_fresh(&ids, users);
                proof {
                    if !was_empty {
                        assert(mid =~= old(self).items@ + Seq::<SearchItem>::empty());
                    }
                }
            }
        }
    }

    /// Takes the answer of the contact search: its new users are added,
    /// under the "Chats" heading if nothing was found before. The public
    /// chats come next.
    pub fn contacts(&mut self, result: Option<Vec<i64>>) -> (next: SearchRequest)
        requires
            old(self).found@.len() + ids_of(result).len() <= 0x1000_0000,
        ensures
            final(self).query_is_empty == old(self).query_is_empty,
            ids_of(result).len() > 0 ==> final(self).items@ == old(self).items@
                + (if old(self).found@.len() == 0 { seq![SearchItem::Section(SectionType::Chats)] } else { Seq::empty() })
                + user_items(fresh(old(self).found@, ids_of(result)))
                && final(self).found@ == old(self).found@ + fresh(old(self).found@, ids_of(result)),
            ids_of(result).len() == 0 ==> final(self).items == old(self).items && final(self).found == old(self).found,
            next == SearchRequest::PublicChats,
    {
        self.fresh_answer(result, true);
        SearchRequest::PublicChats
    }

    /// Takes the answer of the public chat search: its chats not found
    /// before come under the "Global" heading. The search is over.
    pub fn public_chats(&mut self, result: Option<Vec<i64>>) -> (next: SearchRequest)
        ensures
            final(self).query_is_empty == old(self).query_is_empty,
            final(self).found == old(self).found,
            ids_of(result).len() > 0 ==> final(self).items@ == old(self).items@
                + seq![SearchItem::Section(SectionType::Global)]
                + chat_items(unseen(old(self).found@, ids_of(result))),
            ids_of(result).len() == 0 ==> final(self).items == old(self).items,
            next == SearchRequest::Done,
    {
        if let Some(ids) = result {
            if ids.len() > 0 {
                self.items.push(SearchItem::Section(SectionType::Global));
                let _ = self.append_unseen(&ids, false);
            }
        }
        SearchRequest::Done
    }
}

/// The text in lower case, as `str::to_lowercase` gives it: each character
/// replaced by its Unicode lowercase mapping, which is left to this name.
pub uninterp spec fn lowercase(s: Seq<char>) -> Seq<char>;

/// Calls `str::to_lowercase`; the contract names its result, a function of
/// the text alone (the mapping does not depend on the locale).
#[verifier::external_body]
fn to_lowercase(s: &str) -> (r: String)
    ensures
        r@ == lowercase(s@),
{
    s.to_lowercase()
}

/// Whether `needle` occurs in `hay` as a contiguous part.
pub open spec fn occurs_in(needle: Seq<char>, hay: Seq<char>) -> bool {
    exists|i: int| 0 <= i && i + needle.len() <= hay.len() && #[trigger] hay.subrange(i, i + needle.len()) == needle
}

fn occurs_at(needle: &Vec<char>, hay: &Vec<char>, i: usize) -> (b: bool)
    requires
        i + needle.len() <= hay.len(),
    ensures
        b == (hay@.subrange(i as int, i + needle.len()) == needle@),
{
    let mut k: usize = 0;
    while k < needle.len()
        invariant
            k <= needle.len(),
            i + needle.len() <= hay.len(),
            forall|m: int| 0 <= m < k ==> hay@[i + m] == needle@[m],
        decreases needle.len() - k,
    {
        if hay[i + k] != needle[k] {
            assert(hay@.subrange(i as int, i + needle.len())[k as int] != needle@[k as int]);
            return false;
        }
        k = k + 1;
    }
    assert(hay@.subrange(i as int, i + needle.len()) =~= needle@);
    true
}

/// Whether `needle` occurs in `hay` (`str::contains` with a string).
pub fn contains_text(hay: &Vec<char>, needle: &Vec<char>) -> (b: bool)
    ensures
        b == occurs_in(needle@, hay@),
{
    if needle.len() > hay.len() {
        return false;
    }
    let last = hay.len() - needle.len();
    let mut i: usize = 0;
    while i <= last
        invariant
            last == hay.len() - needle.len(),
            i <= last + 1,
            forall|j: int| 0 <= j < i ==> #[trigger] hay@.subrange(j, j + needle.len()) != needle@,
        decreases last + 1 - i,
    {
        if occurs_at(needle, hay, i) {
            return true;
        }
        if i == last {
            return false;
        }
        i = i + 1;
    }
    false
}

/// Whether a search for `query` shows the own chat, whose title is `title`:
/// the query is not empty and occurs in the title, both taken in lower case.
pub fn saved_messages_matches(title: &str, query: &str) -> (b: bool)
    ensures
        b == (query@.len() > 0 && occurs_in(lowercase(query@), lowercase(title@))),
{
    let q = chars_of(query);
    if q.len() == 0 {
        return false;
    }
    let t = to_lowercase(title);
    let ql = to_lowercase(query);
    let tc = chars_of(t.as_str());
    let qc = chars_of(ql.as_str());
    contains_text(&tc, &qc)
}

proof fn lemma_fresh_len(found: Seq<i64>, ids: Seq<i64>)
    ensures
        fresh(found, ids).len() <= ids.len(),
    decreases ids.len(),
{
    if ids.len() > 0 {
        if found.contains(ids[0]) {
            lemma_fresh_len(found, ids.skip(1));
        } else {
            lemma_fresh_len(found.push(ids[0]), ids.skip(1));
        }
    }
}

/// The entries that the server and contact searches add are new: none of
/// them was found before, and none comes twice.
pub proof fn lemma_fresh_is_new(found: Seq<i64>, ids: Seq<i64>)
    ensures
        forall|i: int| 0 <= i < fresh(found, ids).len() ==> !found.contains(#[trigger] fresh(found, ids)[i]),
        fresh(found, ids).no_duplicates(),
    decreases ids.len(),
{
    if ids.len() > 0 {
        if found.contains(ids[0]) {
            lemma_fresh_is_new(found, ids.skip(1));
        } else {
            let f = found.push(ids[0]);
            lemma_fresh_is_new(f, ids.skip(1));
            let rest = fresh(f, ids.skip(1));
            assert forall|i: int| 0 <= i < fresh(found, ids).len() implies !found.contains(#[trigger] fresh(found, ids)[i]) by {
                if i > 0 {
                    assert(fresh(found, ids)[i] == rest[i - 1]);
                    if found.contains(rest[i - 1]) {
                        let j = choose|j: int| 0 <= j < found.len() && found[j] == rest[i - 1];
                        assert(f[j] == rest[i - 1]);
                    }
                }
            }
            assert forall|i: int| 0 <= i < rest.len() implies rest[i] != ids[0] by {
                assert(f[found.len() as int] == ids[0]);
            }
        }
    }
}

/// Searches that add only new entries keep the found chats free of
/// duplicates.
pub proof fn lemma_found_stays_distinct(found: Seq<i64>, ids: Seq<i64>)
    requires
        found.no_duplicates(),
    ensures
        (found + fresh(found, ids)).no_duplicates(),
{
    lemma_fresh_is_new(found, ids);
    let f = fresh(found, ids);
    let all = found + f;
    assert forall|i: int, j: int| 0 <= i < all.len() && 0 <= j < all.len() && i != j implies all[i] != all[j] by {
        if i < found.len() && j >= found.len() {
            assert(all[j] == f[j - found.len()]);
            assert(found.contains(all[i]));
        } else if i >= found.len() && j < found.len() {
            assert(all[i] == f[i - found.len()]);
            assert(found.contains(all[j]));
        }
    }
}

/// The header of a section of the results: its (untranslated) title, and
/// whether it has the button that clears the recently found chats.
pub fn section_header(section: SectionType) -> (r: (&'static str, bool))
    ensures
        section == SectionType::Chats ==> r.0@ == "Chats"@ && !r.1,
        section == SectionType::Global ==> r.0@ == "Global Search"@ && !r.1,
        section == SectionType::Recent ==> r.0@ == "Recent"@ && r.1,
{
    match section {
        SectionType::Chats => ("Chats", false),
        SectionType::Global => ("Global Search", false),
        SectionType::Recent => ("Recent", true),
    }
}

/// The chats a search adds are exactly those of its answer that were not
/// found before, in the answer's order, whatever their identifiers (groups
/// and channels have negative ones): `ids` filtered by not being found.
pub proof fn lemma_unseen_is_filter(found: Seq<i64>, ids: Seq<i64>)
    ensures
        unseen(found, ids) == ids.filter(|id: i64| !found.contains(id)),
        forall|i: int| 0 <= i < ids.len() ==> (unseen(found, ids).contains(ids[i]) <==> !found.contains(ids[i])),
    decreases ids.len(),
{
    let pred = |id: i64| !found.contains(id);
    if ids.len() > 0 {
        lemma_unseen_is_filter(found, ids.skip(1));
        let head = seq![ids[0]];
        assert(ids =~= head + ids.skip(1));
        Seq::filter_distributes_over_add(head, ids.skip(1), pred);
        assert(head.drop_last() =~= Seq::<i64>::empty());
        reveal_with_fuel(Seq::filter, 2);
        if found.contains(ids[0]) {
            assert(head.filter(pred) =~= Seq::<i64>::empty());
            assert(unseen(found, ids) =~= ids.filter(pred));
        } else {
            assert(head.filter(pred) =~= head);
            assert(unseen(found, ids) =~= ids.filter(pred));
        }
    } else {
        assert(unseen(found, ids) =~= ids.filter(pred));
    }
    assert forall|i: int| 0 <= i < ids.len() implies (unseen(found, ids).contains(ids[i]) <==> !found.contains(ids[i])) by {
        ids.filter_lemma(pred);
        if !found.contains(ids[i]) {
            ids.lemma_filter_contains(pred, i);
        } else if unseen(found, ids).contains(ids[i]) {
            let j = choose|j: int| 0 <= j < ids.filter(pred).len() && ids.filter(pred)[j] == ids[i];
            ids.lemma_filter_pred(pred, j);
        }
    }
}

} // verus!
