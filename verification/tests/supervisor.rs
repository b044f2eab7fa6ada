use chartex_radio::capture::TransportCause;
use chartex_radio::cycle::{Action, Cycle, CycleOutcome, Event, Phase};
use chartex_radio::plan::{PlaybackPlan, PlaylistError};
use chartex_radio::resolver::{resolve_manifest, Resolution};
use chartex_radio::sink::{PublishReport, Timestamp};
use chartex_radio::station::StationTarget;
use chartex_radio::supervisor::{IterationEnd, Supervisor};

const MASTER: &str = "#EXTM3U\n#EXT-X-STREAM-INF:BANDWIDTH=128000\nhttp://x/media.m3u8\n";

fn media(first: &str) -> String {
    format!("#EXTM3U\n#EXT-X-TARGETDURATION:6\n#EXTINF:6,\n{}\n#EXTINF:6,\nlater.ts\n", first)
}

fn supervisor_of(address: &str, endpoint: Option<&str>) -> Supervisor {
    let target = StationTarget::new(
        String::from(address),
        5,
        String::from("stream.out"),
        endpoint.map(String::from),
    )
    .unwrap();
    Supervisor::new(target)
}

/// Carries a resolution on with the bodies that the playlists hold in
/// this iteration.
fn resolve_with(supervisor: &Supervisor, bodies: &[&str]) -> Resolution {
    let mut resolution = supervisor.begin_iteration();
    let mut next = 0;
    loop {
        resolution = match resolution {
            Resolution::NeedManifest { url, depth } => {
                let body = bodies[next];
                next += 1;
                resolve_manifest(supervisor.target(), &url, depth, body.as_bytes())
            }
            other => return other,
        }
    }
}

fn plan_of(resolution: Resolution) -> PlaybackPlan {
    match resolution {
        Resolution::Resolved(plan) => plan,
        other => panic!("no plan: {:?}", other),
    }
}

/// Runs one cycle in which everything works but the delivery, which fails
/// as `delivery` says. Hands back what the cycle asked for, by name.
fn run_cycle(cycle: Cycle, first: Action, delivery: Event) -> (Vec<&'static str>, CycleOutcome) {
    let mut asked = Vec::new();
    let mut cycle = cycle;
    let mut action = first;
    let mut delivery = Some(delivery);
    let mut now = 0;
    loop {
        now += 100;
        let event = match action {
            Action::Open { .. } => {
                asked.push("open");
                Event::Opened
            }
            Action::Read => {
                asked.push("read");
                if cycle.plan().is_segmented() && asked.len() > 2 {
                    Event::EndOfStream
                } else {
                    Event::Chunk { bytes: vec![1, 2, 3], elapsed: now * 10 }
                }
            }
            Action::Store(_) => {
                asked.push("store");
                Event::Stored
            }
            Action::Fingerprint => {
                asked.push("fingerprint");
                Event::Fingerprinted
            }
            Action::Recognize => {
                asked.push("recognize");
                Event::Recognized {
                    track: serde_json::from_str(r#"{"title":"Song"}"#).unwrap(),
                    at: Timestamp::new(1_431_648_000, 0).unwrap(),
                }
            }
            Action::Publish { .. } => {
                asked.push("publish");
                delivery.take().unwrap()
            }
            Action::Rest { .. } => {
                asked.push("rest");
                Event::Rested
            }
            Action::Finish(outcome) => return (asked, outcome),
            Action::Wait => panic!("nothing under way"),
        };
        let next = cycle.step(event, now);
        cycle = next.0;
        action = next.1;
    }
}

#[test]
fn master_address_is_resolved_captured_recognized_published_and_resolved_again() {
    let mut supervisor = supervisor_of("http://x/master.m3u8", Some("http://sink/hook"));
    let first = supervisor.begin_iteration();
    assert_eq!(first, Resolution::NeedManifest { url: String::from("http://x/master.m3u8"), depth: 0 });
    let plan = plan_of(resolve_with(&supervisor, &[MASTER, &media("seg0.ts")]));
    assert_eq!(plan, PlaybackPlan::segmented(String::from("http://x/seg0.ts"), 6_000).unwrap());

    let (cycle, action) = supervisor.start(plan);
    assert_eq!(action, Action::Open { url: String::from("http://x/seg0.ts"), whole: true });
    assert_eq!(cycle.budget(), 70_000);
    let (cycle, _) = cycle.step(Event::Opened, 5);
    let (cycle, _) = cycle.step(Event::Chunk { bytes: b"seg".to_vec(), elapsed: 0 }, 10);
    let (cycle, _) = cycle.step(Event::Chunk { bytes: b"ment".to_vec(), elapsed: 1 }, 1_000);
    let (cycle, action) = cycle.step(Event::EndOfStream, 1_001);
    match action {
        Action::Store(window) => assert_eq!(window.bytes(), b"segment"),
        other => panic!("no window: {:?}", other),
    }
    let (cycle, action) = cycle.step(Event::Stored, 1_002);
    assert_eq!(action, Action::Fingerprint);
    let (cycle, action) = cycle.step(Event::Fingerprinted, 1_500);
    assert_eq!(action, Action::Recognize);
    let recognized = Event::Recognized {
        track: serde_json::from_str(r#"{"title":"Song","artist":"Band"}"#).unwrap(),
        at: Timestamp::new(1_431_648_000, 0).unwrap(),
    };
    let (cycle, action) = cycle.step(recognized, 2_000);
    assert_eq!(action, Action::Publish { endpoint: String::from("http://sink/hook") });
    let body = cycle.result().unwrap().document().to_string();
    let body: serde_json::Value = serde_json::from_str(&body).unwrap();
    assert_eq!(body["title"], "Song");
    assert_eq!(body["artist"], "Band");
    assert_eq!(body["station"], "http://x/master.m3u8");
    assert_eq!(body["time"], "2015-05-15T00:00:00+00:00");
    assert_eq!(body.as_object().unwrap().len(), 4);
    let (cycle, action) = cycle.step(Event::Published(PublishReport::Answered { status: 200 }), 2_100);
    assert_eq!(action, Action::Rest { millis: 6_000 });
    let (cycle, action) = cycle.step(Event::Rested, 8_100);
    assert_eq!(cycle.phase(), Phase::Finished);
    let outcome = match action {
        Action::Finish(outcome) => outcome,
        other => panic!("not over: {:?}", other),
    };
    assert!(matches!(outcome, CycleOutcome::Success(_)));

    let again = supervisor.resume(&IterationEnd::Settled(outcome));
    assert_eq!(again, Resolution::NeedManifest { url: String::from("http://x/master.m3u8"), depth: 0 });
}

#[test]
fn leaf_of_the_iteration_before_is_not_used_again() {
    let mut supervisor = supervisor_of("http://x/master.m3u8", None);
    let first = plan_of(resolve_with(&supervisor, &[MASTER, &media("seg0.ts")]));
    assert_eq!(first.source(), "http://x/seg0.ts");
    let (_, action) = supervisor.start(first);
    assert_eq!(action, Action::Open { url: String::from("http://x/seg0.ts"), whole: true });
    assert_eq!(supervisor.plan().unwrap().source(), "http://x/seg0.ts");

    let begun = supervisor.begin_iteration();
    assert_eq!(begun, Resolution::NeedManifest { url: String::from("http://x/master.m3u8"), depth: 0 });
    let second = plan_of(resolve_with(&supervisor, &[MASTER, &media("seg1.ts")]));
    assert_eq!(second.source(), "http://x/seg1.ts");
    let (_, action) = supervisor.start(second);
    assert_eq!(action, Action::Open { url: String::from("http://x/seg1.ts"), whole: true });
}

#[test]
fn redirect_list_is_read_again_in_every_iteration() {
    let mut supervisor = supervisor_of("http://x/radio.m3u", None);
    let asked = Resolution::NeedRedirect { url: String::from("http://x/radio.m3u") };
    assert_eq!(supervisor.begin_iteration(), asked);
    let plan = PlaybackPlan::continuous(String::from("http://y/live"), 5_000).unwrap();
    supervisor.start(plan);
    assert_eq!(supervisor.begin_iteration(), asked);
}

#[test]
fn plan_of_a_direct_address_is_used_again() {
    let mut supervisor = supervisor_of("http://x/live.mp3", None);
    assert_eq!(supervisor.plan(), None);
    let plan = plan_of(supervisor.begin_iteration());
    assert_eq!(plan, PlaybackPlan::continuous(String::from("http://x/live.mp3"), 5_000).unwrap());
    supervisor.start(plan.duplicate());
    assert_eq!(supervisor.plan(), Some(&plan));
    assert_eq!(supervisor.begin_iteration(), Resolution::Resolved(plan));
}

#[test]
fn five_failed_deliveries_leave_five_full_iterations() {
    let mut supervisor = supervisor_of("http://x/live.mp3", Some("http://127.0.0.1:9/refused"));
    let mut resolution = supervisor.begin_iteration();
    for round in 0..5 {
        let plan = plan_of(resolution);
        let (cycle, action) = supervisor.start(plan);
        let delivery = if round % 2 == 0 {
            Event::Failed
        } else {
            Event::Published(PublishReport::Undelivered)
        };
        let (asked, outcome) = run_cycle(cycle, action, delivery);
        assert_eq!(asked.iter().filter(|name| **name == "open").count(), 1);
        assert_eq!(asked.iter().filter(|name| **name == "store").count(), 1);
        assert_eq!(asked.iter().filter(|name| **name == "fingerprint").count(), 1);
        assert_eq!(asked.iter().filter(|name| **name == "recognize").count(), 1);
        assert_eq!(asked.iter().filter(|name| **name == "publish").count(), 1);
        assert!(matches!(outcome, CycleOutcome::Success(_)));
        resolution = supervisor.resume(&IterationEnd::Settled(outcome));
        assert!(matches!(resolution, Resolution::Resolved(_)));
    }
}

#[test]
fn empty_media_manifest_ends_the_iteration_and_not_the_loop() {
    let supervisor = supervisor_of("http://x/media.m3u8", None);
    let empty = "#EXTM3U\n#EXT-X-TARGETDURATION:6\n#EXT-X-ENDLIST\n";
    let failed = resolve_with(&supervisor, &[empty]);
    assert_eq!(failed, Resolution::Failed(PlaylistError::Empty));
    let again = supervisor.resume(&IterationEnd::Unresolved(PlaylistError::Empty));
    assert_eq!(again, Resolution::NeedManifest { url: String::from("http://x/media.m3u8"), depth: 0 });
    let plan = plan_of(resolve_with(&supervisor, &[&media("seg9.ts")]));
    assert_eq!(plan.source(), "http://x/seg9.ts");
}

#[test]
fn every_end_is_followed_by_the_next_iteration() {
    let supervisor = supervisor_of("http://x/master.m3u8", None);
    let begun = Resolution::NeedManifest { url: String::from("http://x/master.m3u8"), depth: 0 };
    let ends = [
        IterationEnd::Unresolved(PlaylistError::ParseError),
        IterationEnd::Unresolved(PlaylistError::NotAPlaylist),
        IterationEnd::Unfetched(TransportCause::Connect),
        IterationEnd::Settled(CycleOutcome::TimedOut),
        IterationEnd::Settled(CycleOutcome::TransportFailure(TransportCause::Closed)),
    ];
    for ended in ends.iter() {
        assert_eq!(supervisor.resume(ended), begun);
    }
    assert_eq!(supervisor.target().address(), "http://x/master.m3u8");
}
