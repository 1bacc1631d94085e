use insiculous_frogger::lanes::LaneKind;
use insiculous_frogger::poses::{
    any_hit, bun_pose, bun_window, cracker_pose, cracker_window, platform_index, BunLead,
    BunWindow, CrackerLead, CrackerWindow, CRACKER_SINK_FRAMES,
};

#[test]
fn test_a_cracker_shows_sink_until_the_flip_and_rise_from_it() {
    // Before the flip the lead-in holds its last frame.
    let window = cracker_window(true, false, CrackerLead::Sink);
    assert_eq!(window, CrackerWindow::Sink);
    let pose = cracker_pose(window, 10);
    assert_eq!(pose.clip, "sink");
    assert_eq!(pose.frame, CRACKER_SINK_FRAMES - 1);
    // Once the rules hold it under, it is drawn under from the top.
    let window = cracker_window(true, true, CrackerLead::Sink);
    assert_eq!(cracker_pose(window, 0).clip, "submerged");
    assert_eq!(cracker_pose(window, 0).frame, 0);
    // The cycle's start rises out of the flip.
    let pose = cracker_pose(cracker_window(true, false, CrackerLead::Rise), 0);
    assert_eq!((pose.clip, pose.frame), ("rise", 0));
}

#[test]
fn test_a_cracker_is_unrideable_exactly_while_it_shows_submerged() {
    for submerged in [false, true] {
        for lead in [CrackerLead::Rise, CrackerLead::Idle, CrackerLead::Warning, CrackerLead::Sink] {
            let pose = cracker_pose(cracker_window(true, submerged, lead), 1);
            let rideable = platform_index(LaneKind::Crackers, &vec![true], &vec![submerged]).is_some();
            assert_eq!(pose.clip == "submerged", !rideable);
        }
    }
}

#[test]
fn test_the_bun_is_lethal_exactly_while_it_shows_open() {
    for open in [false, true] {
        for lead in [BunLead::Closing, BunLead::Hidden, BunLead::Warning, BunLead::Opening] {
            match bun_window(true, false, open, lead) {
                Some(window) => assert_eq!(bun_pose(window, 0).clip == "open", open),
                None => assert!(!open, "a bun away from its nest is never lethal"),
            }
        }
    }
}

#[test]
fn test_a_filled_nest_draws_no_bun_in_any_window() {
    for open in [false, true] {
        for lead in [BunLead::Closing, BunLead::Hidden, BunLead::Warning, BunLead::Opening] {
            assert!(bun_window(true, true, open, lead).is_none());
        }
    }
}

#[test]
fn test_outside_the_ridiculous_family_both_stay_in_their_rest_pose() {
    for lead in [CrackerLead::Rise, CrackerLead::Sink] {
        let window = cracker_window(false, false, lead);
        assert_eq!(window, CrackerWindow::Resting);
        assert_eq!(cracker_pose(window, 5).clip, "idle");
        assert_eq!(cracker_pose(window, 5).frame, 1);
    }
    assert!(bun_window(false, false, false, BunLead::Warning).is_none());
}

#[test]
fn test_the_bun_shows_opening_until_the_flip_and_open_from_it() {
    let pose = bun_pose(bun_window(true, false, false, BunLead::Opening).expect("it draws"), 7);
    assert_eq!((pose.clip, pose.frame), ("opening", 2));
    let pose = bun_pose(bun_window(true, false, true, BunLead::Opening).expect("it draws"), 0);
    assert_eq!((pose.clip, pose.frame), ("open", 0));
    let window = bun_window(true, false, false, BunLead::Closing).expect("it draws");
    assert_eq!(window, BunWindow::Closing);
    assert_eq!(bun_pose(window, 0).clip, "closing");
    assert_eq!(bun_pose(BunWindow::Open, 3).frame, 1);
}

#[test]
fn test_platform_under_between_rafts_is_open_soup() {
    assert_eq!(platform_index(LaneKind::Log, &vec![false, false], &vec![false, false]), None);
    assert_eq!(platform_index(LaneKind::Log, &vec![true, false], &vec![false, false]), Some(0));
    // A raft never sinks, whatever the cracker clock says.
    assert_eq!(platform_index(LaneKind::Log, &vec![false, true], &vec![true, true]), Some(1));
    // A submerged cracker group is no platform; the next one under is.
    assert_eq!(platform_index(LaneKind::Crackers, &vec![true, true], &vec![true, false]), Some(1));
}

#[test]
fn test_road_hit_is_any_overlap() {
    assert!(!any_hit(&vec![false, false, false]));
    assert!(any_hit(&vec![false, true, false]));
    assert!(!any_hit(&Vec::new()));
}

#[test]
fn test_crackers_never_sink_outside_the_ridiculous_family() {
    // Outside the family the cracker only rests, whatever the cycle says.
    for submerged in [false, true] {
        for lead in [CrackerLead::Rise, CrackerLead::Idle, CrackerLead::Warning, CrackerLead::Sink] {
            let window = cracker_window(false, submerged, lead);
            assert_eq!(window, CrackerWindow::Resting);
            assert_eq!(cracker_pose(window, 7).clip, "idle");
        }
    }
}

#[test]
fn test_submerged_crackers_are_not_platforms() {
    // One cracker group under the chicken's centre.
    let under = vec![true];
    assert_eq!(platform_index(LaneKind::Crackers, &under, &vec![false]), Some(0), "surfaced carries");
    assert_eq!(platform_index(LaneKind::Crackers, &under, &vec![true]), None, "submerged does not");
    // A raft never sinks, whatever is measured for it.
    assert_eq!(platform_index(LaneKind::Log, &under, &vec![true]), Some(0));
}
