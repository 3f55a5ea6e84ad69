use paper_plane::duration::{
    human_friendly_duration, human_friendly_duration_text, live_location_expiry, video_time_label,
    DurationTemplate,
};

#[test]
fn human_duration_templates() {
    let d = human_friendly_duration(3725);
    assert_eq!(d.template, DurationTemplate::HoursMinutesSeconds);
    assert_eq!(d.values, vec![1, 2, 5]);
    let d = human_friendly_duration(3605);
    assert_eq!(d.template, DurationTemplate::HoursSeconds);
    assert_eq!(d.values, vec![1, 5]);
    let d = human_friendly_duration(125);
    assert_eq!(d.template, DurationTemplate::MinutesSeconds);
    assert_eq!(d.values, vec![2, 5]);
    let d = human_friendly_duration(120);
    assert_eq!(d.template, DurationTemplate::Minutes);
    assert_eq!(d.values, vec![2]);
    let d = human_friendly_duration(59);
    assert_eq!(d.template, DurationTemplate::Seconds);
    assert_eq!(d.values, vec![59]);
    let d = human_friendly_duration(-30);
    assert_eq!(d.template, DurationTemplate::Seconds);
    assert_eq!(d.values, vec![-30]);
}

#[test]
fn human_duration_text() {
    assert_eq!(human_friendly_duration_text(3725), "1 h 2 min 5 s");
    assert_eq!(human_friendly_duration_text(7200), "2 h 0 s");
    assert_eq!(human_friendly_duration_text(60), "1 min");
    assert_eq!(human_friendly_duration_text(0), "0 s");
}

#[test]
fn human_duration_parts_add_up() {
    for seconds in [0, 1, 59, 60, 61, 3599, 3600, 3601, 86399, 123456] {
        let d = human_friendly_duration(seconds);
        let total: i64 = match d.template {
            DurationTemplate::HoursMinutesSeconds => d.values[0] * 3600 + d.values[1] * 60 + d.values[2],
            DurationTemplate::HoursSeconds => d.values[0] * 3600 + d.values[1],
            DurationTemplate::MinutesSeconds => d.values[0] * 60 + d.values[1],
            DurationTemplate::Minutes => d.values[0] * 60,
            DurationTemplate::Seconds => d.values[0],
        };
        assert_eq!(total, seconds as i64);
    }
}

#[test]
fn video_time_labels() {
    assert_eq!(video_time_label(0), "0:00");
    assert_eq!(video_time_label(65), "1:05");
    assert_eq!(video_time_label(3599), "59:59");
    assert_eq!(video_time_label(3600), "1:00:00");
    assert_eq!(video_time_label(3725), "1:02:05");
    assert_eq!(video_time_label(-5), "0:-5");
    assert_eq!(video_time_label(-65), "-1:-5");
}

#[test]
fn live_location_expires() {
    assert_eq!(live_location_expiry(1000, 60, 1030), (30, true));
    assert_eq!(live_location_expiry(1000, 60, 1060), (0, false));
    assert_eq!(live_location_expiry(1000, 60, 2000), (-940, false));
}
