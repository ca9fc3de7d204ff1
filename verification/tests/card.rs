use kcard::card::{
    caption, layout_card, plan_card, CivilTime, TextDraw, ATTRIBUTION, BEAUTIFUL_BIRD,
    CAPTION_HEIGHT, LINE_HEIGHT, NAME_HEIGHT, TEXT_COLOR,
};
use kcard::text::split_lines;

fn noon() -> CivilTime {
    CivilTime { year: 2024, month: 3, day: 9, hour: 12, minute: 0, second: 5 }
}

fn draw(x: i32, y: i32, height: u32, text: &str) -> TextDraw {
    TextDraw { x, y, height, text: text.to_string() }
}

#[test]
fn caption_pads_every_field() {
    assert_eq!(caption(&noon()), "rendered at 03-09-2024 12:00:05");
    let late = CivilTime { year: 1999, month: 12, day: 31, hour: 23, minute: 59, second: 59 };
    assert_eq!(caption(&late), "rendered at 12-31-1999 23:59:59");
    let early = CivilTime { year: 7, month: 1, day: 2, hour: 0, minute: 0, second: 0 };
    assert_eq!(caption(&early), "rendered at 01-02-0007 00:00:00");
}

#[test]
fn caption_agrees_with_chrono() {
    let times = [
        (2024, 2, 29, 0, 0, 0),
        (1970, 1, 1, 0, 0, 1),
        (2038, 1, 19, 3, 14, 7),
        (9999, 12, 31, 23, 59, 59),
        (800, 11, 5, 9, 8, 7),
        (0, 1, 1, 0, 0, 0),
        (10000, 1, 1, 0, 0, 0),
        (65535, 6, 15, 12, 30, 45),
    ];
    for (year, month, day, hour, minute, second) in times {
        let theirs = chrono::NaiveDate::from_ymd_opt(year, month, day)
            .unwrap()
            .and_hms_opt(hour, minute, second)
            .unwrap()
            .format("%m-%d-%Y %H:%M:%S")
            .to_string();
        let ours = caption(&CivilTime {
            year: year as u16,
            month: month as u8,
            day: day as u8,
            hour: hour as u8,
            minute: minute as u8,
            second: second as u8,
        });
        assert_eq!(ours, format!("rendered at {}", theirs));
    }
}

#[test]
fn bird_has_eighteen_lines() {
    let lines = split_lines(BEAUTIFUL_BIRD);
    assert_eq!(lines.len(), 18);
    assert_eq!(lines[0], "");
    assert_eq!(lines[1], ".`");
    assert_eq!(lines[2], "`@@,,                     ,*");
    assert_eq!(lines[9], "            `>#######`");
    assert_eq!(lines[17], "   .*`");
}

#[test]
fn font_heights_and_colour() {
    assert_eq!((NAME_HEIGHT, LINE_HEIGHT, CAPTION_HEIGHT), (36, 17, 12));
    assert_eq!(TEXT_COLOR, [255, 255, 255, 255]);
}

#[test]
fn caption_of_a_year_with_five_digits() {
    let far = CivilTime { year: 12345, month: 6, day: 7, hour: 8, minute: 9, second: 10 };
    assert_eq!(caption(&far), "rendered at 06-07-+12345 08:09:10");
}

#[test]
fn layout_of_a_small_card() {
    let plan = layout_card("node.os", "first\n\nthird\n", &noon(), 1024, 768);
    let bird = split_lines(BEAUTIFUL_BIRD);
    assert_eq!(plan.len(), 1 + 18 + 3 + 2);
    assert_eq!(plan[0], draw(32, 64, 36, "node.os"));
    for (i, line) in bird.iter().enumerate() {
        assert_eq!(plan[1 + i], draw(750, 32 + 17 * i as i32, 17, line));
    }
    assert_eq!(plan[19], draw(32, 128, 17, "first"));
    assert_eq!(plan[20], draw(32, 145, 17, ""));
    assert_eq!(plan[21], draw(32, 162, 17, "third"));
    assert_eq!(plan[22], draw(32, 732, 12, "rendered at 03-09-2024 12:00:05"));
    assert_eq!(plan[23], draw(828, 732, 12, "Red Sunset // Arkhyp Kuindzhi"));
    assert_eq!(plan[23].text, ATTRIBUTION);
}

#[test]
fn layout_of_an_empty_report_on_a_tiny_background() {
    let plan = layout_card("", "", &noon(), 0, 0);
    assert_eq!(plan.len(), 1 + 18 + 2);
    assert_eq!(plan[0], draw(32, 64, 36, ""));
    assert_eq!(plan[19], draw(32, -36, 12, "rendered at 03-09-2024 12:00:05"));
    assert_eq!(plan[20], draw(-196, -36, 12, ATTRIBUTION));
}

#[test]
fn plan_is_the_layout_where_the_card_fits() {
    let text = "a\nb";
    assert_eq!(plan_card("n", text, &noon(), 640, 480), Some(layout_card("n", text, &noon(), 640, 480)));
    let widest = i32::MAX as u32;
    let plan = plan_card("n", text, &noon(), widest, widest).unwrap();
    assert_eq!(plan[plan.len() - 1].x, i32::MAX - 196);
    assert_eq!(plan[plan.len() - 1].y, i32::MAX - 36);
}

#[test]
fn plan_refuses_a_background_beyond_the_coordinates() {
    assert_eq!(plan_card("n", "a", &noon(), i32::MAX as u32 + 1, 480), None);
    assert_eq!(plan_card("n", "a", &noon(), 640, u32::MAX), None);
}
