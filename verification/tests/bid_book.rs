use auctionhouse::{BidBook, Entry, PartyId};

fn bidder(tag: u8) -> PartyId {
    PartyId::new([tag; 32])
}

fn keys(book: BidBook<u64>) -> Vec<(PartyId, u64)> {
    book.into_entries().into_iter().map(|e| (e.bidder, e.value)).collect()
}

#[test]
fn book_starts_empty() {
    let book: BidBook<u64> = BidBook::new(3);
    assert_eq!(book.len(), 0);
    assert_eq!(book.capacity(), 3);
    assert!(!book.is_full());
    assert_eq!(book.position(&bidder(1)), None);
    assert_eq!(book.get(&bidder(1)), None);
    let none: BidBook<u64> = BidBook::new(0);
    assert!(none.is_full());
}

#[test]
fn book_inserts_each_party_once_up_to_its_capacity() {
    let mut book: BidBook<u64> = BidBook::new(2);
    assert!(book.insert(bidder(1), 10));
    assert!(!book.insert(bidder(1), 11));
    assert_eq!(book.get(&bidder(1)), Some(&10));
    assert!(book.insert(bidder(2), 20));
    assert!(book.is_full());
    assert!(!book.insert(bidder(3), 30));
    assert_eq!(book.len(), 2);
    assert_eq!(book.position(&bidder(1)), Some(0));
    assert_eq!(book.position(&bidder(2)), Some(1));
    assert_eq!(book.position(&bidder(3)), None);
    assert_eq!(keys(book), vec![(bidder(1), 10), (bidder(2), 20)]);
}

#[test]
fn book_finds_parties_by_all_their_bytes() {
    let mut near = [7u8; 32];
    near[31] = 8;
    let mut book: BidBook<u64> = BidBook::new(4);
    assert!(book.insert(PartyId::new([7u8; 32]), 1));
    assert_eq!(book.position(&PartyId::new(near)), None);
    assert!(book.insert(PartyId::new(near), 2));
    assert_eq!(book.get(&PartyId::new(near)), Some(&2));
    assert_eq!(book.get(&PartyId::new([7u8; 32])), Some(&1));
}

#[test]
fn book_updates_in_place() {
    let mut book: BidBook<u64> = BidBook::new(3);
    assert!(book.insert(bidder(1), 10));
    assert!(book.insert(bidder(2), 20));
    assert!(book.insert(bidder(3), 30));
    book.set_value(1, 25);
    assert_eq!(book.entry_at(1).bidder, bidder(2));
    assert_eq!(book.entry_at(1).value, 25);
    assert_eq!(keys(book), vec![(bidder(1), 10), (bidder(2), 25), (bidder(3), 30)]);
}

#[test]
fn book_removal_takes_the_whole_entry_and_keeps_the_order() {
    let mut book: BidBook<u64> = BidBook::new(4);
    assert!(book.insert(bidder(1), 10));
    assert!(book.insert(bidder(2), 20));
    assert!(book.insert(bidder(3), 30));
    assert!(book.insert(bidder(4), 40));
    let gone = book.remove_at(1);
    assert_eq!(gone.bidder, bidder(2));
    assert_eq!(gone.value, 20);
    assert_eq!(book.len(), 3);
    assert_eq!(book.position(&bidder(2)), None);
    assert_eq!(book.position(&bidder(3)), Some(1));
    assert_eq!(book.get(&bidder(4)), Some(&40));
    assert!(book.insert(bidder(2), 21));
    assert_eq!(
        keys(book),
        vec![(bidder(1), 10), (bidder(3), 30), (bidder(4), 40), (bidder(2), 21)]
    );
}

#[test]
fn book_is_made_from_entries_only_if_they_fit_and_differ() {
    let two = || vec![Entry { bidder: bidder(1), value: 10u64 }, Entry { bidder: bidder(2), value: 20 }];
    assert!(BidBook::from_entries(2, two()).is_some());
    assert!(BidBook::from_entries(1, two()).is_none());
    let mut twice = two();
    twice.push(Entry { bidder: bidder(1), value: 30 });
    assert!(BidBook::from_entries(5, twice).is_none());
    let book = BidBook::from_entries(5, two()).unwrap();
    assert_eq!(book.capacity(), 5);
    assert_eq!(keys(book), vec![(bidder(1), 10), (bidder(2), 20)]);
    let empty: Vec<Entry<u64>> = Vec::new();
    assert!(BidBook::from_entries(0, empty).is_some());
}
