use guildbot::votes::VoteTally;
use guildbot::{getvotes, vote, Data};

#[test]
fn votes_counted_per_choice_across_interleaving() {
    let mut data = Data::new();
    let calls = ["pizza", "tacos", "pizza", "sushi", "pizza", "tacos"];
    for c in calls {
        vote(&mut data, c.to_string());
    }
    assert_eq!(data.votes.get(&"pizza".to_string()), 3);
    assert_eq!(data.votes.get(&"tacos".to_string()), 2);
    assert_eq!(data.votes.get(&"sushi".to_string()), 1);
    assert_eq!(data.votes.get(&"ramen".to_string()), 0);
    assert_eq!(getvotes(&data, Some("pizza".to_string())), "3 people have voted for pizza");
}

#[test]
fn getvotes_all_empty_then_after_one_vote() {
    let mut data = Data::new();
    assert_eq!(getvotes(&data, None), "Nobody has voted for anything yet :(");
    vote(&mut data, "pizza".to_string());
    let r = getvotes(&data, None);
    assert!(r.contains("pizza"));
    assert!(r.contains("1"));
    assert_eq!(r, "pizza: 1 votes");
}

#[test]
fn getvotes_unknown_choice_reports_nobody() {
    let data = Data::new();
    assert_eq!(getvotes(&data, Some("tacos".to_string())), "Nobody has voted for tacos yet");
}

#[test]
fn vote_reply_reports_new_count() {
    let mut data = Data::new();
    assert_eq!(
        vote(&mut data, "pizza".to_string()),
        "Successfully voted for pizza. pizza now has 1 votes!"
    );
    assert_eq!(
        vote(&mut data, "pizza".to_string()),
        "Successfully voted for pizza. pizza now has 2 votes!"
    );
}

#[test]
fn choice_names_are_case_sensitive() {
    let mut data = Data::new();
    vote(&mut data, "Pizza".to_string());
    assert_eq!(getvotes(&data, Some("pizza".to_string())), "Nobody has voted for pizza yet");
    assert_eq!(getvotes(&data, Some("Pizza".to_string())), "1 people have voted for Pizza");
}

#[test]
fn listing_keeps_order_of_first_vote() {
    let mut data = Data::new();
    vote(&mut data, "tacos".to_string());
    vote(&mut data, "pizza".to_string());
    vote(&mut data, "tacos".to_string());
    assert_eq!(getvotes(&data, None), "tacos: 2 votespizza: 1 votes");
    let all = data.votes.list_all();
    assert_eq!(all, vec![("tacos".to_string(), 2), ("pizza".to_string(), 1)]);
}

#[test]
fn getvotes_does_not_change_tally() {
    let mut data = Data::new();
    vote(&mut data, "pizza".to_string());
    getvotes(&data, Some("pizza".to_string()));
    getvotes(&data, Some("tacos".to_string()));
    getvotes(&data, None);
    assert_eq!(data.votes.list_all(), vec![("pizza".to_string(), 1)]);
}

#[test]
fn tally_increment_returns_count() {
    let mut t = VoteTally::new();
    assert!(t.is_empty());
    assert_eq!(t.increment(&"a".to_string()), 1);
    assert_eq!(t.increment(&"b".to_string()), 1);
    assert_eq!(t.increment(&"a".to_string()), 2);
    assert!(!t.is_empty());
}

#[test]
fn large_counts_render_in_decimal() {
    let mut t = VoteTally::new();
    for _ in 0..1234 {
        t.increment(&"x".to_string());
    }
    let data = Data { votes: t };
    assert_eq!(getvotes(&data, Some("x".to_string())), "1234 people have voted for x");
}
