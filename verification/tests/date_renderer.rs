use date_render::DateRenderer;
use date_render::Language;
use date_render::Precision;
use time::Date;
use time::Month;

#[test]
fn date_renderer_test_date_renderer_day() {
    // Day
    assert_eq!(DateRenderer::day(2024, 10, 2).as_string(), "2024-10-02");
    assert_eq!(DateRenderer::day(-2024, 10, 2).as_string(), "-2024-10-02");
}

#[test]
fn date_renderer_test_date_renderer_month() {
    assert_eq!(DateRenderer::month(2024, 10).as_string(), "2024-10");
    assert_eq!(DateRenderer::month(-2024, 10).as_string(), "-2024-10");
}

#[test]
fn date_renderer_test_date_renderer_year() {
    assert_eq!(DateRenderer::year(2024).as_string(), "2024");
    assert_eq!(DateRenderer::year(-2024).as_string(), "-2024");
    assert_eq!(DateRenderer::year(0).as_string(), "0");
}

#[test]
fn date_renderer_test_date_renderer_decade() {
    assert_eq!(DateRenderer::decade(910).as_string(), "910s");
    assert_eq!(DateRenderer::decade(-910).as_string(), "910s BCE");
    assert_eq!(DateRenderer::decade(-909).as_string(), "900s BCE");
    assert_eq!(DateRenderer::decade(-900).as_string(), "900s BCE");
    assert_eq!(DateRenderer::decade(0).as_string(), "0");
}

#[test]
fn date_renderer_test_date_renderer_century() {
    assert_eq!(
        DateRenderer::new(10, 1, 1, Precision::Century).as_string(),
        "1st century"
    );
    assert_eq!(
        DateRenderer::new(110, 1, 1, Precision::Century).as_string(),
        "2nd century"
    );
    assert_eq!(
        DateRenderer::new(210, 1, 1, Precision::Century).as_string(),
        "3rd century"
    );
    assert_eq!(
        DateRenderer::new(310, 1, 1, Precision::Century).as_string(),
        "4th century"
    );
    assert_eq!(
        DateRenderer::new(-10, 1, 1, Precision::Century).as_string(),
        "1st century BCE"
    );
    assert_eq!(
        DateRenderer::new(-110, 1, 1, Precision::Century).as_string(),
        "2nd century BCE"
    );
    assert_eq!(
        DateRenderer::new(-210, 1, 1, Precision::Century).as_string(),
        "3rd century BCE"
    );
    assert_eq!(
        DateRenderer::new(-310, 1, 1, Precision::Century).as_string(),
        "4th century BCE"
    );
    assert_eq!(
        DateRenderer::new(-1000, 1, 1, Precision::Century).as_string(),
        "10th century BCE"
    );
    assert_eq!(
        DateRenderer::new(-901, 1, 1, Precision::Century).as_string(),
        "10th century BCE"
    );
    assert_eq!(
        DateRenderer::new(-900, 1, 1, Precision::Century).as_string(),
        "9th century BCE"
    );
    assert_eq!(
        DateRenderer::new(0, 1, 1, Precision::Century).as_string(),
        "0"
    );
}

#[test]
fn date_renderer_test_date_renderer_millennium() {
    assert_eq!(
        DateRenderer::new(1, 1, 1, Precision::Millennium).as_string(),
        "1st millennium"
    );
    assert_eq!(
        DateRenderer::new(1000, 1, 1, Precision::Millennium).as_string(),
        "1st millennium"
    );
    assert_eq!(
        DateRenderer::new(1001, 1, 1, Precision::Millennium).as_string(),
        "2nd millennium"
    );
    assert_eq!(
        DateRenderer::new(2001, 1, 1, Precision::Millennium).as_string(),
        "3rd millennium"
    );
    assert_eq!(
        DateRenderer::new(3001, 1, 1, Precision::Millennium).as_string(),
        "4th millennium"
    );
    assert_eq!(
        DateRenderer::new(-1000, 1, 1, Precision::Millennium).as_string(),
        "1st millennium BCE"
    );
    assert_eq!(
        DateRenderer::new(-1001, 1, 1, Precision::Millennium).as_string(),
        "2nd millennium BCE"
    );
    assert_eq!(
        DateRenderer::new(-2001, 1, 1, Precision::Millennium).as_string(),
        "3rd millennium BCE"
    );
    assert_eq!(
        DateRenderer::new(-3001, 1, 1, Precision::Millennium).as_string(),
        "4th millennium BCE"
    );
    assert_eq!(
        DateRenderer::new(0, 1, 1, Precision::Millennium).as_string(),
        "0"
    );
}

#[test]
fn date_renderer_test_data_render_german() {
    let dr = DateRenderer::new(910, 1, 1, Precision::Decade).language(Language::German);
    assert_eq!(dr.as_string(), "910er");
    let dr = DateRenderer::new(-910, 1, 1, Precision::Decade).language(Language::German);
    assert_eq!(dr.as_string(), "910er v.Chr.");

    let dr = DateRenderer::new(910, 1, 1, Precision::Century).language(Language::German);
    assert_eq!(dr.as_string(), "10. Jahrhundert");
    let dr = DateRenderer::new(-910, 1, 1, Precision::Century).language(Language::German);
    assert_eq!(dr.as_string(), "10. Jahrhundert v.Chr.");

    let dr = DateRenderer::new(910, 1, 1, Precision::Millennium).language(Language::German);
    assert_eq!(dr.as_string(), "1. Jahrtausend");
    let dr = DateRenderer::new(-910, 1, 1, Precision::Millennium).language(Language::German);
    assert_eq!(dr.as_string(), "1. Jahrtausend v.Chr.");
}

#[test]
fn date_renderer_test_from_date() {
    let date = Date::from_calendar_date(2024, Month::September, 1).unwrap();
    let dr = DateRenderer::date(&date, Precision::Day);
    assert_eq!(dr.as_string(), "2024-09-01");
}

#[test]
fn date_renderer_test_new_date() {
    let date = Date::from_calendar_date(-910, Month::September, 17).unwrap();
    let dr = DateRenderer::date(&date, Precision::Millennium);
    assert_eq!(dr.as_string(), "1st millennium BCE");
    let dr = DateRenderer::date(&date, Precision::Day);
    assert_eq!(dr.as_string(), "-910-09-17");
}
