use paper_plane::search::section_header;
use paper_plane::search::{
    contains_text, saved_messages_matches, ChatSearch, SearchItem, SearchPage, SearchRequest,
    SectionType,
};

#[test]
fn saved_messages_title_matching() {
    assert!(saved_messages_matches("Saved Messages", "saved"));
    assert!(saved_messages_matches("Saved Messages", "MESS"));
    assert!(saved_messages_matches("Saved Messages", "Saved Messages"));
    assert!(!saved_messages_matches("Saved Messages", ""));
    assert!(!saved_messages_matches("Saved Messages", "drafts"));
    assert!(saved_messages_matches("Gespeichertes", "GESP"));
}

#[test]
fn text_containment() {
    let c = |s: &str| s.chars().collect::<Vec<char>>();
    assert!(contains_text(&c("hello"), &c("ell")));
    assert!(contains_text(&c("hello"), &c("")));
    assert!(contains_text(&c(""), &c("")));
    assert!(!contains_text(&c("hello"), &c("hello!")));
    assert!(!contains_text(&c("hello"), &c("olleh")));
}

#[test]
fn empty_query_shows_recent_chats_only() {
    let (mut search, next) = ChatSearch::start(true, true, Some(1));
    assert!(search.items.is_empty());
    assert_eq!(next, SearchRequest::Chats { limit: 30 });
    assert_eq!(search.page(), SearchPage::Empty);
    let next = search.local_chats(Some(vec![5, 6]));
    assert_eq!(
        search.items,
        vec![SearchItem::Section(SectionType::Recent), SearchItem::Chat(5), SearchItem::Chat(6)]
    );
    assert_eq!(next, SearchRequest::Done);
    assert_eq!(search.page(), SearchPage::Results);
}

#[test]
fn full_search_deduplicates() {
    let (mut search, next) = ChatSearch::start(false, true, Some(1));
    assert_eq!(search.items, vec![SearchItem::Section(SectionType::Chats), SearchItem::Chat(1)]);
    assert_eq!(next, SearchRequest::Chats { limit: 30 });
    let next = search.local_chats(Some(vec![1, 2, 3]));
    assert_eq!(
        search.items,
        vec![
            SearchItem::Section(SectionType::Chats),
            SearchItem::Chat(1),
            SearchItem::Section(SectionType::Chats),
            SearchItem::Chat(2),
            SearchItem::Chat(3),
        ]
    );
    assert_eq!(search.found, vec![1, 1, 2, 3]);
    assert_eq!(next, SearchRequest::ChatsOnServer { limit: 46 });
    let next = search.chats_on_server(Some(vec![3, 4, 4, 5]));
    assert_eq!(search.found, vec![1, 1, 2, 3, 4, 5]);
    assert_eq!(next, SearchRequest::Contacts { limit: 44 });
    let next = search.contacts(Some(vec![5, 6]));
    assert_eq!(next, SearchRequest::PublicChats);
    let next = search.public_chats(Some(vec![6, 7, 7]));
    assert_eq!(next, SearchRequest::Done);
    assert_eq!(
        search.items,
        vec![
            SearchItem::Section(SectionType::Chats),
            SearchItem::Chat(1),
            SearchItem::Section(SectionType::Chats),
            SearchItem::Chat(2),
            SearchItem::Chat(3),
            SearchItem::Chat(4),
            SearchItem::Chat(5),
            SearchItem::User(6),
            SearchItem::Section(SectionType::Global),
            SearchItem::Chat(7),
            SearchItem::Chat(7),
        ]
    );
}

#[test]
fn first_results_from_server_get_a_heading() {
    let (mut search, _) = ChatSearch::start(false, false, Some(1));
    search.local_chats(None);
    assert!(search.items.is_empty());
    search.chats_on_server(Some(vec![8]));
    assert_eq!(search.items, vec![SearchItem::Section(SectionType::Chats), SearchItem::Chat(8)]);
    search.contacts(Some(vec![]));
    assert_eq!(search.items.len(), 2);
}

#[test]
fn search_stops_at_the_maximum() {
    let (mut search, _) = ChatSearch::start(false, false, None);
    search.local_chats(Some((0..30).collect()));
    let next = search.chats_on_server(Some((100..120).collect()));
    assert_eq!(search.found.len(), 50);
    assert_eq!(next, SearchRequest::Done);
}

#[test]
fn section_headers() {
    assert_eq!(section_header(SectionType::Chats), ("Chats", false));
    assert_eq!(section_header(SectionType::Global), ("Global Search", false));
    assert_eq!(section_header(SectionType::Recent), ("Recent", true));
}
