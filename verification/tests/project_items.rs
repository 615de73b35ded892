use automatic_triage::project_items::{
    Date, ProjectV2Item, ProjectV2ItemFieldDateValue, ProjectV2ItemFieldSingleSelectValue,
    ProjectV2ItemFieldValue,
};

fn select(name: Option<&str>) -> ProjectV2ItemFieldValue {
    ProjectV2ItemFieldValue::ProjectV2ItemFieldSingleSelectValue(
        ProjectV2ItemFieldSingleSelectValue { name: name.map(|n| n.to_string()) },
    )
}

fn dated(date: Option<Date>) -> ProjectV2ItemFieldValue {
    ProjectV2ItemFieldValue::ProjectV2ItemFieldDateValue(ProjectV2ItemFieldDateValue { date })
}

fn day(year: i32, month: u32, day: u32) -> Date {
    Date::from_ymd_opt(year, month, day).unwrap()
}

#[test]
fn single_select_value_reads_as_its_name() {
    assert_eq!(select(Some("In progress")).as_str(), Some("In progress"));
    assert_eq!(select(Some("")).as_str(), Some(""));
    assert_eq!(select(None).as_str(), None);
    assert_eq!(dated(Some(day(2024, 2, 29))).as_str(), None);
    assert_eq!(ProjectV2ItemFieldValue::Other.as_str(), None);
}

#[test]
fn date_value_reads_as_its_date() {
    assert_eq!(dated(Some(day(2024, 2, 29))).as_date(), Some(day(2024, 2, 29)));
    assert_ne!(dated(Some(day(2024, 2, 29))).as_date(), Some(day(2024, 2, 28)));
    assert_eq!(dated(None).as_date(), None);
    assert_eq!(select(Some("2024-02-29")).as_date(), None);
    assert_eq!(ProjectV2ItemFieldValue::Other.as_date(), None);
}

#[test]
fn item_reads_its_status_and_date_fields() {
    let item = ProjectV2Item {
        content: None,
        status: Some(select(Some("Done"))),
        date: Some(dated(Some(day(2023, 12, 31)))),
    };
    assert_eq!(item.status(), Some("Done"));
    assert_eq!(item.date(), Some(day(2023, 12, 31)));
}

#[test]
fn item_without_fields_reads_as_nothing() {
    let item = ProjectV2Item { content: None, status: None, date: None };
    assert_eq!(item.status(), None);
    assert_eq!(item.date(), None);
}

#[test]
fn item_with_fields_of_the_wrong_kind_reads_as_nothing() {
    let item = ProjectV2Item {
        content: None,
        status: Some(dated(Some(day(2023, 12, 31)))),
        date: Some(select(Some("Done"))),
    };
    assert_eq!(item.status(), None);
    assert_eq!(item.date(), None);
    let other = ProjectV2Item {
        content: None,
        status: Some(ProjectV2ItemFieldValue::Other),
        date: Some(ProjectV2ItemFieldValue::Other),
    };
    assert_eq!(other.status(), None);
    assert_eq!(other.date(), None);
}
