use date_nick::guild::ApiError;
use date_nick::guild::GuildSummary;
use date_nick::pagination::EnumStep;
use date_nick::pagination::Enumeration;

fn guild(id: u64, name: &str) -> GuildSummary {
    GuildSummary { id, name: name.to_string() }
}

fn guilds(ids: &[u64]) -> Vec<GuildSummary> {
    ids.iter().map(|&id| guild(id, &format!("guild-{id}"))).collect()
}

#[test]
fn five_entries_pages_of_two_need_three_requests() {
    // N = 5, P = 2: pages of 2, 2, 1 — ceil(5 / 2) = 3 requests, all five
    // entries in stable order.
    let en = Enumeration::new(2);
    let req = en.request();
    assert_eq!(req.after, None);
    assert_eq!(req.limit, 2);

    let en = match en.on_page(Ok(guilds(&[1, 2]))) {
        EnumStep::More(en) => en,
        _ => panic!("full first page must continue"),
    };
    assert_eq!(en.request().after, Some(2));

    let en = match en.on_page(Ok(guilds(&[3, 4]))) {
        EnumStep::More(en) => en,
        _ => panic!("full second page must continue"),
    };
    assert_eq!(en.request().after, Some(4));

    match en.on_page(Ok(guilds(&[5]))) {
        EnumStep::Done(all) => {
            let ids: Vec<u64> = all.iter().map(|g| g.id).collect();
            assert_eq!(ids, vec![1, 2, 3, 4, 5]);
            assert_eq!(all[2].name, "guild-3");
        }
        _ => panic!("short third page must end the enumeration"),
    }
}

#[test]
fn empty_first_page_ends_with_empty_result() {
    // A page shorter than the limit ends enumeration at once, even the very
    // first and empty one: the result is an empty sequence, not an error.
    let en = Enumeration::new(100);
    match en.on_page(Ok(Vec::new())) {
        EnumStep::Done(all) => assert_eq!(all.len(), 0),
        _ => panic!("empty first page must end the enumeration"),
    }
}

#[test]
fn short_first_page_is_the_whole_collection() {
    let en = Enumeration::new(100);
    match en.on_page(Ok(guilds(&[7, 8, 9]))) {
        EnumStep::Done(all) => {
            let ids: Vec<u64> = all.iter().map(|g| g.id).collect();
            assert_eq!(ids, vec![7, 8, 9]);
        }
        _ => panic!("short first page must end the enumeration"),
    }
}

#[test]
fn exact_multiple_needs_one_confirming_request() {
    // N = 4, P = 2: both pages come back full, so a third request is spent
    // on the empty page that shows the collection finished.
    let en = Enumeration::new(2);
    let en = match en.on_page(Ok(guilds(&[1, 2]))) {
        EnumStep::More(en) => en,
        _ => panic!("full first page must continue"),
    };
    let en = match en.on_page(Ok(guilds(&[3, 4]))) {
        EnumStep::More(en) => en,
        _ => panic!("full second page must continue"),
    };
    assert_eq!(en.request().after, Some(4));
    match en.on_page(Ok(Vec::new())) {
        EnumStep::Done(all) => {
            let ids: Vec<u64> = all.iter().map(|g| g.id).collect();
            assert_eq!(ids, vec![1, 2, 3, 4]);
        }
        _ => panic!("the empty confirming page must end the enumeration"),
    }
}

#[test]
fn three_failures_return_the_third_error() {
    // The budget is 3 attempts for the whole enumeration: the third
    // consecutive failure is returned, and no fourth request is asked for.
    let en = Enumeration::new(100);
    let en = match en.on_page(Err(ApiError::Network)) {
        EnumStep::Retry(en) => en,
        _ => panic!("first failure must retry"),
    };
    assert_eq!(en.request().after, None);
    let en = match en.on_page(Err(ApiError::RateLimited)) {
        EnumStep::Retry(en) => en,
        _ => panic!("second failure must retry"),
    };
    assert_eq!(en.request().after, None);
    match en.on_page(Err(ApiError::Server)) {
        EnumStep::Failed(e) => assert_eq!(e, ApiError::Server),
        _ => panic!("third failure must abort the enumeration"),
    }
}

#[test]
fn two_failures_then_success_use_the_successful_data_only() {
    let en = Enumeration::new(100);
    let en = match en.on_page(Err(ApiError::Server)) {
        EnumStep::Retry(en) => en,
        _ => panic!("first failure must retry"),
    };
    let en = match en.on_page(Err(ApiError::Server)) {
        EnumStep::Retry(en) => en,
        _ => panic!("second failure must retry"),
    };
    match en.on_page(Ok(guilds(&[4, 5]))) {
        EnumStep::Done(all) => {
            let ids: Vec<u64> = all.iter().map(|g| g.id).collect();
            assert_eq!(ids, vec![4, 5]);
        }
        _ => panic!("a short successful page must end the enumeration"),
    }
}

#[test]
fn failure_on_a_later_page_keeps_the_cursor() {
    // An error retries the same request: the cursor does not move.
    let en = Enumeration::new(2);
    let en = match en.on_page(Ok(guilds(&[1, 2]))) {
        EnumStep::More(en) => en,
        _ => panic!("full page must continue"),
    };
    let en = match en.on_page(Err(ApiError::Auth)) {
        EnumStep::Retry(en) => en,
        _ => panic!("failure with budget left must retry"),
    };
    assert_eq!(en.request().after, Some(2));
    assert_eq!(en.request().limit, 2);
}

#[test]
fn budget_is_shared_across_pages() {
    // Two failures on the first page and one on the second exhaust the same
    // per-enumeration budget.
    let en = Enumeration::new(1);
    let en = match en.on_page(Err(ApiError::Network)) {
        EnumStep::Retry(en) => en,
        _ => panic!("first failure must retry"),
    };
    let en = match en.on_page(Err(ApiError::Network)) {
        EnumStep::Retry(en) => en,
        _ => panic!("second failure must retry"),
    };
    let en = match en.on_page(Ok(guilds(&[1]))) {
        EnumStep::More(en) => en,
        _ => panic!("full page must continue"),
    };
    match en.on_page(Err(ApiError::RateLimited)) {
        EnumStep::Failed(e) => assert_eq!(e, ApiError::RateLimited),
        _ => panic!("third failure of the enumeration must abort it"),
    }
}
