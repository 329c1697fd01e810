use transcode_rs::transcode::{
    size_limit, CrfSearch, SearchEnd, SearchError, SearchReply, SearchRequest, SpawnOutcome,
};
use transcode_rs::video::VideoCodec;

/// Brings an attempt to where its output is measured while the encoder runs.
fn run_to_measure(search: CrfSearch, max_size: u64) -> CrfSearch {
    assert_eq!(search.request(), Some(SearchRequest::CreateTarget));
    let search = search.advance(max_size, SearchReply::Target(true));
    assert!(matches!(search.request(), Some(SearchRequest::Spawn { .. })));
    let search = search.advance(max_size, SearchReply::Spawned(SpawnOutcome::Started));
    assert_eq!(search.request(), Some(SearchRequest::Poll));
    let search = search.advance(max_size, SearchReply::Polled { finished: false });
    assert_eq!(search.request(), Some(SearchRequest::Measure));
    search
}

/// Brings an attempt to where its complete output is measured.
fn run_to_check(search: CrfSearch, max_size: u64) -> CrfSearch {
    let search = run_to_measure(search, max_size).advance(max_size, SearchReply::Size(Some(0)));
    assert_eq!(search.request(), Some(SearchRequest::Poll));
    let search = search.advance(max_size, SearchReply::Polled { finished: true });
    assert_eq!(search.request(), Some(SearchRequest::Join));
    let search = search.advance(max_size, SearchReply::Joined(true));
    assert_eq!(search.request(), Some(SearchRequest::Measure));
    search
}

#[test]
fn small_enough_transcode_is_accepted() {
    let search = run_to_check(CrfSearch::start(30), 60);
    let search = search.advance(60, SearchReply::Size(Some(60)));
    assert_eq!(search, CrfSearch::Finished(SearchEnd::Accepted { crf: 30 }));
    assert_eq!(search.request(), None);
}

#[test]
fn crf_is_raised_until_the_limit_is_met() {
    let search = run_to_check(CrfSearch::start(30), 60);
    let search = search.advance(60, SearchReply::Size(Some(61)));
    assert_eq!(search, CrfSearch::Creating { crf: 31 });
    let search = run_to_check(search, 60).advance(60, SearchReply::Size(Some(59)));
    assert_eq!(search, CrfSearch::Finished(SearchEnd::Accepted { crf: 31 }));
}

#[test]
fn oversized_transcode_is_stopped_early() {
    let search = run_to_measure(CrfSearch::start(30), 60);
    let search = search.advance(60, SearchReply::Size(Some(61)));
    assert_eq!(search.request(), Some(SearchRequest::Quit));
    let search = search.advance(60, SearchReply::QuitSent(true));
    assert_eq!(search.request(), Some(SearchRequest::Settle));
    let search = search.advance(60, SearchReply::Settled);
    assert_eq!(search, CrfSearch::Creating { crf: 31 });
}

#[test]
fn missing_target_moves_on_to_the_next_crf() {
    let search = CrfSearch::start(62).advance(60, SearchReply::Target(false));
    assert_eq!(search, CrfSearch::Creating { crf: 63 });
    let search = search.advance(60, SearchReply::Target(false));
    assert_eq!(search, CrfSearch::Finished(SearchEnd::Exhausted));
}

#[test]
fn search_tries_every_crf_before_it_is_exhausted() {
    let mut search = CrfSearch::start(0);
    let mut tried = Vec::new();
    while search.request().is_some() {
        if let CrfSearch::Creating { crf } = search {
            tried.push(crf);
        }
        search = run_to_check(search, 10).advance(10, SearchReply::Size(Some(11)));
    }
    assert_eq!(search, CrfSearch::Finished(SearchEnd::Exhausted));
    assert_eq!(tried, (0..64).collect::<Vec<u8>>());
}

#[test]
fn crf_out_of_range_is_exhausted_at_once() {
    assert_eq!(CrfSearch::start(64), CrfSearch::Finished(SearchEnd::Exhausted));
    assert_eq!(CrfSearch::start(63), CrfSearch::Creating { crf: 63 });
}

#[test]
fn failures_end_the_search() {
    let spawning = CrfSearch::start(30).advance(60, SearchReply::Target(true));
    assert_eq!(spawning.request(), Some(SearchRequest::Spawn { crf: 30 }));
    for outcome in [
        SpawnOutcome::NotStarted,
        SpawnOutcome::NoStdin,
        SpawnOutcome::UnusableStdin,
    ] {
        assert_eq!(
            spawning.advance(60, SearchReply::Spawned(outcome)),
            CrfSearch::Finished(SearchEnd::Failed(SearchError::Spawn(outcome)))
        );
    }
    let measuring = run_to_measure(CrfSearch::start(30), 60);
    assert_eq!(
        measuring.advance(60, SearchReply::Size(None)),
        CrfSearch::Finished(SearchEnd::Failed(SearchError::Measure))
    );
    let quitting = measuring.advance(60, SearchReply::Size(Some(61)));
    assert_eq!(
        quitting.advance(60, SearchReply::QuitSent(false)),
        CrfSearch::Finished(SearchEnd::Failed(SearchError::Quit))
    );
    let checking = run_to_check(CrfSearch::start(30), 60);
    assert_eq!(
        checking.advance(60, SearchReply::Size(None)),
        CrfSearch::Finished(SearchEnd::Failed(SearchError::Measure))
    );
    let joining = measuring
        .advance(60, SearchReply::Size(Some(1)))
        .advance(60, SearchReply::Polled { finished: true });
    assert_eq!(
        joining.advance(60, SearchReply::Joined(false)),
        CrfSearch::Finished(SearchEnd::Failed(SearchError::Progress))
    );
}

#[test]
fn only_hevc_may_keep_its_size() {
    assert_eq!(size_limit(VideoCodec::Hevc, 100, 60), 100);
    assert_eq!(size_limit(VideoCodec::Other, 100, 60), 60);
    assert_eq!(size_limit(VideoCodec::AV1, 100, 60), 60);
}

/// Runs a search in which the complete output for a CRF of `crf` has `10_000 - 100 * crf` bytes.
fn run_regularly(min_crf: u8, max_size: u64) -> CrfSearch {
    let mut search = CrfSearch::start(min_crf);
    let mut tried: u8 = min_crf;
    while let Some(request) = search.request() {
        let reply = match request {
            SearchRequest::CreateTarget => SearchReply::Target(true),
            SearchRequest::Spawn { crf } => {
                tried = crf;
                SearchReply::Spawned(SpawnOutcome::Started)
            }
            SearchRequest::Poll => SearchReply::Polled { finished: true },
            SearchRequest::Measure => SearchReply::Size(Some(10_000 - 100 * tried as u64)),
            SearchRequest::Quit => SearchReply::QuitSent(true),
            SearchRequest::Settle => SearchReply::Settled,
            SearchRequest::Join => SearchReply::Joined(true),
        };
        search = search.advance(max_size, reply);
    }
    search
}

#[test]
fn laxer_search_needs_no_higher_crf() {
    let accepted = |crf: u8| CrfSearch::Finished(SearchEnd::Accepted { crf });
    assert_eq!(run_regularly(30, 5_000), accepted(50));
    assert_eq!(run_regularly(20, 5_000), accepted(50));
    assert_eq!(run_regularly(30, 6_000), accepted(40));
    assert_eq!(run_regularly(20, 9_000), accepted(20));
    assert_eq!(
        run_regularly(30, 3_000),
        CrfSearch::Finished(SearchEnd::Exhausted)
    );
}
