use workshop_rustlab_2022::database::{
    calc_query_cost, select_page, FieldSet, PageRange, ServerField, ServerQuery,
    DEFAULT_PAGE_SIZE, FIELDS_LEN, LEAK_PER_SECOND, MAX_BUCKET_CAPACITY,
};

const ALL_FIELDS: [(ServerField, &str); 26] = [
    (ServerField::GeoPoint2d, "geo_point_2d"),
    (ServerField::GeoShape, "geo_shape"),
    (ServerField::Name, "name"),
    (ServerField::Etichetta, "etichetta"),
    (ServerField::Notetesto, "notetesto"),
    (ServerField::Numeroantico, "numeroantico"),
    (ServerField::Numeromoderno, "numeromoderno"),
    (ServerField::Link1, "link1"),
    (ServerField::Link2, "link2"),
    (ServerField::Link3, "link3"),
    (ServerField::Piani, "piani"),
    (ServerField::Arcate, "arcate"),
    (ServerField::Architravate, "architravate"),
    (ServerField::ArchitravateConColonneDiLegno, "architravate_con_colonne_di_legno"),
    (ServerField::Archivolti, "archivolti"),
    (ServerField::Modiglioni, "modiglioni"),
    (ServerField::MensoloniArchitravati, "mensoloni_architravati"),
    (ServerField::StallaE, "stalla_e"),
    (ServerField::FienileI, "fienile_i"),
    (ServerField::RimessaE, "rimessa_e"),
    (ServerField::ScuderiaE, "scuderia_e"),
    (ServerField::AttivitaCommercialiProduttive1, "attivita_commerciali_produttive1"),
    (ServerField::AttivitaCommercialiProduttive2, "attivita_commerciali_produttive2"),
    (ServerField::AttivitaCommercialiProduttive3, "attivita_commerciali_produttive3"),
    (ServerField::AttivitaCommercialiProduttive4, "attivita_commerciali_produttive4"),
    (ServerField::AttivitaCommercialiProduttive5, "attivita_commerciali_produttive5"),
];

fn query_of(fields: &[ServerField], page: Option<usize>, page_size: Option<u16>) -> ServerQuery {
    ServerQuery { fields: FieldSet::from_slice(fields), page, page_size }
}

#[test]
fn constants() {
    assert_eq!(FIELDS_LEN, 26);
    assert_eq!(DEFAULT_PAGE_SIZE, 10);
    assert_eq!(MAX_BUCKET_CAPACITY, 500);
    assert_eq!(LEAK_PER_SECOND, 4);
}

#[test]
fn field_names() {
    for (field, name) in ALL_FIELDS {
        assert_eq!(field.to_str(), name);
    }
    assert_eq!(ALL_FIELDS.len(), usize::from(FIELDS_LEN));
}

#[test]
fn field_set_holds_each_field_once() {
    let mut set = FieldSet::new();
    assert!(set.is_empty());
    assert_eq!(set.len(), 0);
    assert!(set.insert(ServerField::Name));
    assert!(set.insert(ServerField::Piani));
    assert!(!set.insert(ServerField::Name));
    assert_eq!(set.len(), 2);
    assert!(!set.is_empty());
    assert!(set.contains(ServerField::Name));
    assert!(set.contains(ServerField::Piani));
    assert!(!set.contains(ServerField::Link1));
    assert_eq!(set.as_slice(), &[ServerField::Name, ServerField::Piani]);

    let copy = set.clone();
    assert_eq!(copy.len(), 2);
    assert!(copy.contains(ServerField::Piani));
}

#[test]
fn field_set_from_a_slice_drops_repeats() {
    let set = FieldSet::from_slice(&[
        ServerField::Link2,
        ServerField::Link1,
        ServerField::Link2,
        ServerField::Link2,
        ServerField::Link1,
    ]);
    assert_eq!(set.len(), 2);
    assert!(set.contains(ServerField::Link1));
    assert!(set.contains(ServerField::Link2));

    let every: Vec<ServerField> = ALL_FIELDS.iter().map(|(field, _)| *field).collect();
    let twice: Vec<ServerField> = every.iter().chain(every.iter()).copied().collect();
    assert_eq!(FieldSet::from_slice(&twice).len(), 26);
}

#[test]
fn default_query() {
    let query = ServerQuery::default();
    assert!(query.fields.is_empty());
    assert_eq!(query.page, None);
    assert_eq!(query.page_size, None);
    assert_eq!(query.effective_page(), 0);
    assert_eq!(query.effective_page_size(), 10);
}

#[test]
fn cost_is_page_size_times_fields() {
    assert_eq!(calc_query_cost(&ServerQuery::default()), 260);
    assert_eq!(calc_query_cost(&query_of(&[], Some(3), Some(1))), 26);
    assert_eq!(calc_query_cost(&query_of(&[ServerField::Name], None, None)), 10);
    assert_eq!(
        calc_query_cost(&query_of(
            &[ServerField::Name, ServerField::GeoPoint2d, ServerField::Numeromoderno],
            None,
            None
        )),
        30
    );
    assert_eq!(
        calc_query_cost(&query_of(&[ServerField::Name, ServerField::Name], Some(9), Some(25))),
        25
    );
    assert_eq!(calc_query_cost(&query_of(&[ServerField::Name], None, Some(0))), 0);
    let every: Vec<ServerField> = ALL_FIELDS.iter().map(|(field, _)| *field).collect();
    assert_eq!(calc_query_cost(&query_of(&every, None, Some(100))), 2600);
}

#[test]
fn cost_stops_at_the_largest_number() {
    assert_eq!(calc_query_cost(&query_of(&[], None, Some(u16::MAX))), u16::MAX);
    assert_eq!(calc_query_cost(&query_of(&[], None, Some(2520))), 65520);
    assert_eq!(calc_query_cost(&query_of(&[], None, Some(2521))), u16::MAX);
    assert_eq!(calc_query_cost(&query_of(&[ServerField::Name], None, Some(u16::MAX))), u16::MAX);
    assert_eq!(
        calc_query_cost(&query_of(&[ServerField::Name, ServerField::Piani], None, Some(32768))),
        u16::MAX
    );
}

#[test]
fn pages_are_cut_as_chunks_are() {
    let records: Vec<usize> = (0..23).collect();
    for page_size in 1..=30u16 {
        for page in 0..=30usize {
            let range = select_page(records.len(), &query_of(&[], Some(page), Some(page_size)));
            let expected: &[usize] =
                records.chunks(usize::from(page_size)).nth(page).unwrap_or_default();
            assert_eq!(&records[range.start..range.end], expected);
        }
    }
}

#[test]
fn page_ranges() {
    assert_eq!(select_page(23, &ServerQuery::default()), PageRange { start: 0, end: 10 });
    assert_eq!(select_page(23, &query_of(&[], Some(1), None)), PageRange { start: 10, end: 20 });
    assert_eq!(select_page(23, &query_of(&[], Some(2), None)), PageRange { start: 20, end: 23 });
    assert_eq!(select_page(23, &query_of(&[], Some(3), None)), PageRange { start: 23, end: 23 });
    assert_eq!(
        select_page(23, &query_of(&[], Some(usize::MAX), Some(u16::MAX))),
        PageRange { start: 23, end: 23 }
    );
    assert_eq!(select_page(0, &ServerQuery::default()), PageRange { start: 0, end: 0 });
    assert_eq!(
        select_page(usize::MAX, &query_of(&[], Some(usize::MAX / 7), Some(7))),
        PageRange { start: usize::MAX / 7 * 7, end: usize::MAX }
    );
}
