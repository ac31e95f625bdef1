use userposts::state::{PostList, UserList};

#[test]
fn user_ids_follow_call_order() {
    let mut users = UserList::new();
    assert_eq!(users.len(), 0);
    assert_eq!(users.create_user("a".to_string(), "a@x.com".to_string()), Some(1));
    assert_eq!(users.create_user("b".to_string(), "b@x.com".to_string()), Some(2));
    assert_eq!(users.create_user("a".to_string(), "a@x.com".to_string()), Some(3));
    assert_eq!(users.len(), 3);
    for i in 0..3usize {
        assert_eq!(users.get(i).unwrap().id, i as u32 + 1);
    }
    assert_eq!(users.get(2).unwrap().username, "a");
    assert!(users.get(3).is_none());
}

#[test]
fn post_ids_follow_call_order() {
    let mut posts = PostList::new();
    for n in 1..=10u32 {
        assert_eq!(posts.create_post(7, format!("post {}", n)), Some(n));
    }
    assert_eq!(posts.len(), 10);
    for i in 0..10usize {
        let p = posts.get(i).unwrap();
        assert_eq!(p.id, i as u32 + 1);
        assert_eq!(p.user_id, 7);
        assert_eq!(p.content, format!("post {}", i + 1));
    }
}

#[test]
fn fifty_posts_have_distinct_ids() {
    let mut posts = PostList::new();
    let mut ids = Vec::new();
    for n in 0..50u32 {
        ids.push(posts.create_post(n % 3, "same".to_string()).unwrap());
    }
    let mut sorted = ids.clone();
    sorted.sort();
    sorted.dedup();
    assert_eq!(sorted.len(), 50);
    assert_eq!(ids, (1..=50u32).collect::<Vec<u32>>());
}

#[test]
fn create_user_alice() {
    let mut users = UserList::new();
    assert_eq!(users.create_user("alice".to_string(), "a@x.com".to_string()), Some(1));
    let u = users.get(0).unwrap();
    assert_eq!(u.id, 1);
    assert_eq!(u.username, "alice");
    assert_eq!(u.email, "a@x.com");
}

#[test]
fn post_by_unknown_user_is_accepted() {
    let users = UserList::new();
    let mut posts = PostList::new();
    assert_eq!(posts.create_post(999, "orphan".to_string()), Some(1));
    assert_eq!(users.len(), 0);
    assert_eq!(posts.get(0).unwrap().user_id, 999);
}

#[test]
fn user_and_post_ids_are_independent() {
    let mut users = UserList::new();
    let mut posts = PostList::new();
    assert_eq!(posts.create_post(1, "x".to_string()), Some(1));
    assert_eq!(posts.create_post(1, "y".to_string()), Some(2));
    assert_eq!(users.create_user("u".to_string(), "e".to_string()), Some(1));
}
