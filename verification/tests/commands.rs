use madrid_cita_previa::calendar::{AppointmentDay, AppointmentSlot};
use madrid_cita_previa::commands::fetch_closest_appointment_office;
use madrid_cita_previa::commands::fetch_procedure_appointments;
use madrid_cita_previa::commands::fetch_procedure_appointments::{
    basic_office_info_from_static, day_with_slots, day_without_slots, days_having_slots,
    days_with_slots, days_without_slots, filter_offices, find_offer, found_appointments, office_appointments,
    offices_with_procedure, DayWithAppointments, OfficeAppoinmentsInfo, OfficeBasicInfo,
    ProcudureAppointments,
};
use madrid_cita_previa::commands::list_offices;
use madrid_cita_previa::commands::list_procedures;
use madrid_cita_previa::commands::office_info;
use madrid_cita_previa::commands::ExitCode;
use madrid_cita_previa::json::JsonNumber;
use madrid_cita_previa::model::{
    OfficeId, ProcedureId, ProcedureOfficeId, StaticOffice, StaticOfficeProcedure, StaticProcedure,
};
use madrid_cita_previa::office::NetOfficeModel;

fn offer(local: u32, family: u32) -> StaticOfficeProcedure {
    StaticOfficeProcedure {
        procedure_name: "name",
        procedure_category: "category",
        procedure_office_id: ProcedureOfficeId(local),
        procedure_id: ProcedureId(family),
    }
}

fn office(id: u32, group: &'static str, name: &'static str, offers: Vec<StaticOfficeProcedure>) -> &'static StaticOffice {
    Box::leak(Box::new(StaticOffice {
        name,
        group,
        id: OfficeId(id),
        procedures: Box::leak(offers.into_boxed_slice()),
    }))
}

fn procedure(id: u32, category: &'static str, name: &'static str) -> &'static StaticProcedure {
    Box::leak(Box::new(StaticProcedure {
        procedure_category: category,
        procedure_name: name,
        procedure_id: ProcedureId(id),
    }))
}

fn catalogue() -> Vec<&'static StaticOffice> {
    vec![
        office(1, "Centro", "OAC Sol", vec![offer(11, 7), offer(12, 9)]),
        office(2, "Retiro", "OAC Retiro", vec![offer(21, 9)]),
        office(3, "CENTRO", "OAC Ópera", vec![offer(31, 7), offer(32, 7)]),
        office(4, "Arganzuela", "OAC Arganzuela", vec![]),
        office(5, "centro", "OAC Atocha", vec![offer(51, 8)]),
    ]
}

fn ids(offices: &[&'static StaticOffice]) -> Vec<u32> {
    offices.iter().map(|o| o.id.0).collect()
}

#[test]
fn exit_codes_report_their_status() {
    assert_eq!(ExitCode::Success.report(), 0);
    assert_eq!(ExitCode::FaultOrArgsError.report(), 1);
    assert_eq!(ExitCode::RequestUnsatisfied.report(), 2);
}

#[test]
fn basic_info_is_id_and_name() {
    let info = basic_office_info_from_static(office(17, "G", "OAC Diecisiete", vec![]));
    assert_eq!(info.office_id, 17);
    assert_eq!(info.office_name, "OAC Diecisiete");
}

#[test]
fn filter_offices_without_filters_keeps_all() {
    assert_eq!(ids(&filter_offices(catalogue(), None, None)), vec![1, 2, 3, 4, 5]);
    assert_eq!(ids(&filter_offices(Vec::new(), Some(1), None)), Vec::<u32>::new());
}

#[test]
fn filter_offices_by_id() {
    assert_eq!(ids(&filter_offices(catalogue(), Some(3), None)), vec![3]);
    assert_eq!(ids(&filter_offices(catalogue(), Some(99), None)), Vec::<u32>::new());
}

#[test]
fn filter_offices_by_group_ignores_case() {
    assert_eq!(ids(&filter_offices(catalogue(), None, Some("centro".to_string()))), vec![1, 3, 5]);
    assert_eq!(ids(&filter_offices(catalogue(), None, Some("CeNtRo".to_string()))), vec![1, 3, 5]);
    assert_eq!(ids(&filter_offices(catalogue(), None, Some("Centr".to_string()))), Vec::<u32>::new());
    assert_eq!(ids(&filter_offices(catalogue(), None, Some("RETIRO".to_string()))), vec![2]);
}

#[test]
fn filter_offices_by_id_and_group() {
    assert_eq!(ids(&filter_offices(catalogue(), Some(3), Some("centro".to_string()))), vec![3]);
    assert_eq!(
        ids(&filter_offices(catalogue(), Some(2), Some("centro".to_string()))),
        Vec::<u32>::new()
    );
}

#[test]
fn group_comparison_lowers_beyond_ascii() {
    let offices = vec![office(1, "CHAMBERÍ", "A", vec![]), office(2, "Chamberi", "B", vec![])];
    assert_eq!(ids(&filter_offices(offices, None, Some("chamberí".to_string()))), vec![1]);
}

#[test]
fn find_offer_takes_the_first_entry() {
    let all = catalogue();
    assert_eq!(find_offer(all[2], 7).unwrap().procedure_office_id, ProcedureOfficeId(31));
    assert_eq!(find_offer(all[0], 9).unwrap().procedure_office_id, ProcedureOfficeId(12));
    assert!(find_offer(all[0], 8).is_none());
    assert!(find_offer(all[3], 7).is_none());
}

#[test]
fn offices_with_procedure_keep_order_and_entry() {
    let found = offices_with_procedure(catalogue(), 7);
    let pairs: Vec<(u32, u32)> =
        found.iter().map(|(o, p)| (o.id.0, p.procedure_office_id.0)).collect();
    assert_eq!(pairs, vec![(1, 11), (3, 31)]);
    assert!(offices_with_procedure(catalogue(), 1000).is_empty());
}

#[test]
fn select_offices_applies_filters_and_procedure() {
    let args = fetch_procedure_appointments::Args {
        procedure_id: 7,
        slots: false,
        office_id: None,
        office_group: Some("Centro".to_string()),
        json: false,
    };
    let found = fetch_procedure_appointments::select_offices(&args, catalogue()).unwrap();
    let pairs: Vec<(u32, u32)> =
        found.iter().map(|(o, p)| (o.id.0, p.procedure_office_id.0)).collect();
    assert_eq!(pairs, vec![(1, 11), (3, 31)]);
    let args = fetch_procedure_appointments::Args {
        procedure_id: 9,
        slots: true,
        office_id: Some(2),
        office_group: None,
        json: true,
    };
    let found = fetch_procedure_appointments::select_offices(&args, catalogue()).unwrap();
    assert_eq!(found.len(), 1);
    assert_eq!(found[0].0.id, OfficeId(2));
    assert_eq!(found[0].1.procedure_office_id, ProcedureOfficeId(21));
}

#[test]
fn select_offices_without_a_match_is_a_fault_of_the_arguments() {
    let args = fetch_procedure_appointments::Args {
        procedure_id: 7,
        slots: false,
        office_id: Some(2),
        office_group: None,
        json: false,
    };
    assert_eq!(
        fetch_procedure_appointments::select_offices(&args, catalogue()).unwrap_err(),
        ExitCode::FaultOrArgsError
    );
    let args = fetch_procedure_appointments::Args {
        procedure_id: 1234,
        slots: false,
        office_id: None,
        office_group: None,
        json: false,
    };
    assert_eq!(
        fetch_procedure_appointments::select_offices(&args, catalogue()).unwrap_err(),
        ExitCode::FaultOrArgsError
    );
}

fn day(year: i32, month: u8, d: u8) -> AppointmentDay {
    AppointmentDay::from_ymd(year, month, d).unwrap()
}

#[test]
fn days_are_reported_in_iso_form() {
    let reported = day_without_slots(&day(2024, 6, 5));
    assert_eq!(reported.day, "2024-06-05");
    assert_eq!(reported.slots, None);
    let all = days_without_slots(&vec![day(2024, 6, 5), day(2024, 12, 31)]);
    assert_eq!(all.len(), 2);
    assert_eq!(all[0].day, "2024-06-05");
    assert_eq!(all[1].day, "2024-12-31");
    assert!(all.iter().all(|d| d.slots.is_none()));
    assert!(days_without_slots(&Vec::new()).is_empty());
}

#[test]
fn days_with_slots_carry_timestamps() {
    let d = day(2024, 6, 5);
    let slots = vec![AppointmentSlot::at(d, 9, 0).unwrap(), AppointmentSlot::at(d, 9, 30).unwrap()];
    let reported = day_with_slots(&d, &slots);
    assert_eq!(reported.day, "2024-06-05");
    assert_eq!(reported.slots, Some(vec![1717570800, 1717572600]));
    assert_eq!(day_with_slots(&d, &Vec::new()).slots, Some(vec![]));
}

#[test]
fn days_without_any_slot_are_not_reported() {
    let first = day(2024, 6, 5);
    let second = day(2024, 6, 6);
    let third = day(2024, 6, 7);
    let days = vec![
        (first, vec![AppointmentSlot::at(first, 9, 0).unwrap()]),
        (second, vec![]),
        (third, vec![AppointmentSlot::at(third, 10, 0).unwrap(), AppointmentSlot::at(third, 11, 0).unwrap()]),
    ];
    let reported = days_with_slots(&days);
    assert_eq!(reported.len(), 2);
    assert_eq!(reported[0].day, "2024-06-05");
    assert_eq!(reported[0].slots.as_ref().unwrap().len(), 1);
    assert_eq!(reported[1].day, "2024-06-07");
    assert_eq!(reported[1].slots.as_ref().unwrap().len(), 2);
    assert!(days_with_slots(&vec![(second, vec![])]).is_empty());
    let kept = days_having_slots(days);
    assert_eq!(kept.len(), 2);
    assert_eq!(kept[0].0, first);
    assert_eq!(kept[0].1.len(), 1);
    assert_eq!(kept[1].0, third);
    assert_eq!(kept[1].1.len(), 2);
    assert!(days_having_slots(vec![(second, vec![])]).is_empty());
}

fn report(lengths: &[usize]) -> ProcudureAppointments {
    ProcudureAppointments {
        appointments_by_office: lengths
            .iter()
            .map(|n| OfficeAppoinmentsInfo {
                office: OfficeBasicInfo { office_id: 1, office_name: "x" },
                appointments: (0..*n)
                    .map(|_| DayWithAppointments { day: "2024-06-05".to_string(), slots: None })
                    .collect(),
            })
            .collect(),
    }
}

#[test]
fn appointments_are_found_where_any_office_reports_a_day() {
    assert!(!found_appointments(&report(&[])));
    assert!(!found_appointments(&report(&[0, 0, 0])));
    assert!(found_appointments(&report(&[0, 2, 0])));
    assert!(found_appointments(&report(&[1])));
    assert_eq!(fetch_procedure_appointments::conclude(&report(&[0, 0])), ExitCode::RequestUnsatisfied);
    assert_eq!(fetch_procedure_appointments::conclude(&report(&[0, 1])), ExitCode::Success);
    assert_eq!(fetch_procedure_appointments::conclude(&report(&[])), ExitCode::RequestUnsatisfied);
}

#[test]
fn office_appointments_carry_the_office() {
    let info = office_appointments(
        office(17, "G", "OAC Diecisiete", vec![]),
        days_without_slots(&vec![day(2024, 6, 5)]),
    );
    assert_eq!(info.office.office_id, 17);
    assert_eq!(info.office.office_name, "OAC Diecisiete");
    assert_eq!(info.appointments.len(), 1);
}

fn procedures() -> Vec<&'static StaticProcedure> {
    vec![
        procedure(7, "Padrón", "Alta"),
        procedure(9, "Tasas", "Pago"),
        procedure(7, "Padrón", "Alta (duplicate)"),
        procedure(8, "PADRÓN", "Baja"),
    ]
}

#[test]
fn closest_office_command_looks_the_procedure_up() {
    let all = procedures();
    let args = fetch_closest_appointment_office::Args { procedure_id: 7 };
    let found = fetch_closest_appointment_office::select_procedure(&args, &all).unwrap();
    assert_eq!(found.procedure_name, "Alta");
    let args = fetch_closest_appointment_office::Args { procedure_id: 10 };
    assert_eq!(
        fetch_closest_appointment_office::select_procedure(&args, &all).unwrap_err(),
        ExitCode::FaultOrArgsError
    );
    assert!(fetch_closest_appointment_office::find_procedure(&[], 7).is_none());
    assert_eq!(
        fetch_closest_appointment_office::find_procedure(&all, 8).unwrap().procedure_name,
        "Baja"
    );
}

#[test]
fn closest_office_command_ends_by_what_the_service_names() {
    let office = NetOfficeModel {
        office_id: 1,
        office_code: None,
        latitude: JsonNumber::PosInt(0),
        longitude: JsonNumber::PosInt(0),
        name: "n".to_string(),
        address: "a".to_string(),
        district_code: "c".to_string(),
        district_name: "d".to_string(),
        url: "u".to_string(),
        procedures: vec![],
    };
    assert_eq!(fetch_closest_appointment_office::conclude(&Some(office)), ExitCode::Success);
    assert_eq!(fetch_closest_appointment_office::conclude(&None), ExitCode::RequestUnsatisfied);
}

#[test]
fn list_procedures_filters_by_category() {
    let all = procedures();
    let names = |category: Option<&str>| -> Vec<&str> {
        let args = list_procedures::Args { category: category.map(|c| c.to_string()) };
        list_procedures::select_procedures(&args, &all).iter().map(|p| p.procedure_name).collect()
    };
    assert_eq!(names(None), vec!["Alta", "Pago", "Alta (duplicate)", "Baja"]);
    assert_eq!(names(Some("padrón")), vec!["Alta", "Alta (duplicate)", "Baja"]);
    assert_eq!(names(Some("TASAS")), vec!["Pago"]);
    assert_eq!(names(Some("none")), Vec::<&str>::new());
}

#[test]
fn office_info_looks_office_and_procedures_up() {
    let offices = catalogue();
    let all = procedures();
    let args = office_info::Args { office_id: 1 };
    let found = office_info::select_office(&args, &offices).unwrap();
    assert_eq!(found.name, "OAC Sol");
    let described = office_info::describe_procedures(found, &all);
    let names: Vec<Option<&str>> = described.iter().map(|p| p.map(|p| p.procedure_name)).collect();
    assert_eq!(names, vec![Some("Alta"), Some("Pago")]);
    let args = office_info::Args { office_id: 404 };
    assert!(office_info::select_office(&args, &offices).is_none());
    let described = office_info::describe_procedures(offices[4], &all[..2]);
    assert_eq!(described.len(), 1);
    assert!(described[0].is_none());
    assert!(office_info::describe_procedures(offices[3], &all).is_empty());
    assert_eq!(office_info::find_office(&offices, 3).unwrap().group, "CENTRO");
}

#[test]
fn list_offices_filters_by_group_and_procedure() {
    let kept = list_offices::filter_offices(catalogue(), &Some("centro".to_string()), None);
    assert_eq!(ids(&kept), vec![1, 3, 5]);
    let kept = list_offices::filter_offices(catalogue(), &None, Some(9));
    assert_eq!(ids(&kept), vec![1, 2]);
    let kept = list_offices::filter_offices(catalogue(), &Some("CENTRO".to_string()), Some(7));
    assert_eq!(ids(&kept), vec![1, 3]);
    let kept = list_offices::filter_offices(catalogue(), &None, None);
    assert_eq!(ids(&kept), vec![1, 2, 3, 4, 5]);
}

#[test]
fn list_offices_orders_by_group_then_name() {
    let args = list_offices::Args { group: None, procedure: None };
    let selected = list_offices::select_offices(&args, catalogue());
    let rows: Vec<(&str, &str)> = selected.iter().map(|o| (o.group, o.name)).collect();
    assert_eq!(
        rows,
        vec![
            ("Arganzuela", "OAC Arganzuela"),
            ("CENTRO", "OAC Ópera"),
            ("Centro", "OAC Sol"),
            ("Retiro", "OAC Retiro"),
            ("centro", "OAC Atocha"),
        ]
    );
    let mut expected = catalogue();
    expected.sort_by(|a, b| Ord::cmp(a.group, b.group).then(Ord::cmp(a.name, b.name)));
    assert_eq!(ids(&selected), ids(&expected));
}

#[test]
fn list_offices_orders_names_within_a_group() {
    let offices = vec![
        office(1, "G", "b", vec![]),
        office(2, "G", "ab", vec![]),
        office(3, "G", "a", vec![]),
        office(4, "G", "", vec![]),
        office(5, "G", "B", vec![]),
        office(6, "G", "é", vec![]),
        office(7, "G", "z", vec![]),
        office(8, "F", "zz", vec![]),
        office(9, "", "x", vec![]),
    ];
    let sorted = list_offices::sort_offices(&offices);
    assert_eq!(ids(&sorted), vec![9, 8, 4, 5, 3, 2, 1, 7, 6]);
    let mut expected = offices.clone();
    expected.sort_by(|a, b| Ord::cmp(a.group, b.group).then(Ord::cmp(a.name, b.name)));
    assert_eq!(ids(&sorted), ids(&expected));
}

#[test]
fn list_offices_keeps_ties_in_their_order() {
    let offices = vec![
        office(1, "G", "same", vec![]),
        office(2, "A", "first", vec![]),
        office(3, "G", "same", vec![]),
        office(4, "G", "same", vec![]),
        office(5, "A", "first", vec![]),
    ];
    assert_eq!(ids(&list_offices::sort_offices(&offices)), vec![2, 5, 1, 3, 4]);
    assert!(list_offices::sort_offices(&Vec::new()).is_empty());
}
