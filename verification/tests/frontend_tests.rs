use alexandrie::frontend::config::{enabled_def, Config};
use alexandrie::frontend::helpers::{humanize_date, humanize_datetime, Date, DateTime};
use alexandrie::frontend::pages::{last_updated_links, page_count, page_offset, PAGE_SIZE};

#[test]
fn frontend_is_enabled_by_default() {
    assert!(enabled_def());
    let config = Config::default();
    assert!(config.enabled);
    assert_eq!(config.title.as_deref(), Some("Alexandrie"));
    assert_eq!(
        config.description.as_deref(),
        Some("An alternative crate registry for Cargo, the Rust package manager.")
    );
    assert_eq!(config.favicon, None);
}

#[test]
fn page_counts() {
    assert_eq!(PAGE_SIZE, 15);
    assert_eq!(page_count(0), 1);
    assert_eq!(page_count(1), 1);
    assert_eq!(page_count(15), 1);
    assert_eq!(page_count(16), 2);
    assert_eq!(page_count(30), 2);
    assert_eq!(page_count(31), 3);
}

#[test]
fn page_offsets() {
    assert_eq!(page_offset(1), 0);
    assert_eq!(page_offset(2), 15);
    assert_eq!(page_offset(10), 135);
}

#[test]
fn links_between_pages() {
    assert_eq!(last_updated_links(1, 3), (Some("/last-updated?page=2".to_owned()), None));
    assert_eq!(
        last_updated_links(2, 3),
        (Some("/last-updated?page=3".to_owned()), Some("/last-updated?page=1".to_owned()))
    );
    assert_eq!(last_updated_links(3, 3), (None, Some("/last-updated?page=2".to_owned())));
    assert_eq!(last_updated_links(1, 1), (None, None));
}

#[test]
fn human_readable_dates() {
    assert_eq!(humanize_date(Date { year: 2020, month: 3, day: 7 }), "Mar 7 2020");
    assert_eq!(humanize_date(Date { year: 1999, month: 12, day: 31 }), "Dec 31 1999");
    assert_eq!(humanize_date(Date { year: 2024, month: 2, day: 29 }), "Feb 29 2024");
}

#[test]
fn human_readable_years_outside_four_digits() {
    assert_eq!(humanize_date(Date { year: 33, month: 1, day: 2 }), "Jan 2 0033");
    assert_eq!(humanize_date(Date { year: 12345, month: 6, day: 1 }), "Jun 1 +12345");
}

#[test]
fn human_readable_times() {
    let t = DateTime { date: Date { year: 2020, month: 3, day: 7 }, hour: 9, minute: 5, second: 59 };
    assert_eq!(humanize_datetime(t), "Mar 7 2020, 09:05");
    let t = DateTime { date: Date { year: 2021, month: 11, day: 20 }, hour: 23, minute: 59, second: 0 };
    assert_eq!(humanize_datetime(t), "Nov 20 2021, 23:59");
}
