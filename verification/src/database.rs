//! The query that the server understands, the fields it can select, and
//! what a query costs.

use vstd::prelude::*;

verus! {

/// The number of fields of an entry.
pub const FIELDS_LEN: u8 = 26;

/// The default page size for a request.
///
/// See [`ServerQuery::page_size`].
pub const DEFAULT_PAGE_SIZE: u16 = 10;

/// The default max bucket capacity.
pub const MAX_BUCKET_CAPACITY: u16 = 500;

/// The default leaky bucket leak-per-second.
pub const LEAK_PER_SECOND: u8 = 4;

/// The possible fields for the query/response.
///
/// All the variants have a direct relationship with a field of an entry.
#[derive(Clone, Copy, Debug, PartialEq, Eq, Hash, Structural)]
pub enum ServerField {
    GeoPoint2d,
    GeoShape,
    Name,
    Etichetta,
    Notetesto,
    Numeroantico,
    Numeromoderno,
    Link1,
    Link2,
    Link3,
    Piani,
    Arcate,
    Architravate,
    ArchitravateConColonneDiLegno,
    Archivolti,
    Modiglioni,
    MensoloniArchitravati,
    StallaE,
    FienileI,
    RimessaE,
    ScuderiaE,
    AttivitaCommercialiProduttive1,
    AttivitaCommercialiProduttive2,
    AttivitaCommercialiProduttive3,
    AttivitaCommercialiProduttive4,
    AttivitaCommercialiProduttive5,
}

impl ServerField {
    /// The name of the field, as the server spells it.
    pub open spec fn name(self) -> Seq<char> {
        match self {
            ServerField::GeoPoint2d => "geo_point_2d"@,
            ServerField::GeoShape => "geo_shape"@,
            ServerField::Name => "name"@,
            ServerField::Etichetta => "etichetta"@,
            ServerField::Notetesto => "notetesto"@,
            ServerField::Numeroantico => "numeroantico"@,
            ServerField::Numeromoderno => "numeromoderno"@,
            ServerField::Link1 => "link1"@,
            ServerField::Link2 => "link2"@,
            ServerField::Link3 => "link3"@,
            ServerField::Piani => "piani"@,
            ServerField::Arcate => "arcate"@,
            ServerField::Architravate => "architravate"@,
            ServerField::ArchitravateConColonneDiLegno => "architravate_con_colonne_di_legno"@,
            ServerField::Archivolti => "archivolti"@,
            ServerField::Modiglioni => "modiglioni"@,
            ServerField::MensoloniArchitravati => "mensoloni_architravati"@,
            ServerField::StallaE => "stalla_e"@,
            ServerField::FienileI => "fienile_i"@,
            ServerField::RimessaE => "rimessa_e"@,
            ServerField::ScuderiaE => "scuderia_e"@,
            ServerField::AttivitaCommercialiProduttive1 => "attivita_commerciali_produttive1"@,
            ServerField::AttivitaCommercialiProduttive2 => "attivita_commerciali_produttive2"@,
            ServerField::AttivitaCommercialiProduttive3 => "attivita_commerciali_produttive3"@,
            ServerField::AttivitaCommercialiProduttive4 => "attivita_commerciali_produttive4"@,
            ServerField::AttivitaCommercialiProduttive5 => "attivita_commerciali_produttive5"@,
        }
    }

    /// Return the string representation of the field.
    #[must_use]
    pub fn to_str(&self) -> (name: &'static str)
        ensures
            name@ == self.name(),
    {
        match self {
            ServerField::GeoPoint2d => "geo_point_2d",
            ServerField::GeoShape => "geo_shape",
            ServerField::Name => "name",
            ServerField::Etichetta => "etichetta",
            ServerField::Notetesto => "notetesto",
            ServerField::Numeroantico => "numeroantico",
            ServerField::Numeromoderno => "numeromoderno",
            ServerField::Link1 => "link1",
            ServerField::Link2 => "link2",
            ServerField::Link3 => "link3",
            ServerField::Piani => "piani",
            ServerField::Arcate => "arcate",
            ServerField::Architravate => "architravate",
            ServerField::ArchitravateConColonneDiLegno => "architravate_con_colonne_di_legno",
            ServerField::Archivolti => "archivolti",
            ServerField::Modiglioni => "modiglioni",
            ServerField::MensoloniArchitravati => "mensoloni_architravati",
            ServerField::StallaE => "stalla_e",
            ServerField::FienileI => "fienile_i",
            ServerField::RimessaE => "rimessa_e",
            ServerField::ScuderiaE => "scuderia_e",
            ServerField::AttivitaCommercialiProduttive1 => "attivita_commerciali_produttive1",
            ServerField::AttivitaCommercialiProduttive2 => "attivita_commerciali_produttive2",
            ServerField::AttivitaCommercialiProduttive3 => "attivita_commerciali_produttive3",
            ServerField::AttivitaCommercialiProduttive4 => "attivita_commerciali_produttive4",
            ServerField::AttivitaCommercialiProduttive5 => "attivita_commerciali_produttive5",
        }
    }
}

/// A set of fields: each field is in it once or not at all, and the order
/// in which fields came in means nothing.
#[derive(Debug)]
pub struct FieldSet {
    items: Vec<ServerField>,
}

impl Clone for FieldSet {
    /// A set of the same fields.
    fn clone(&self) -> (copy: Self)
        ensures
            copy@ == self@,
    {
        FieldSet::from_slice(self.as_slice())
    }
}

impl View for FieldSet {
    type V = Set<ServerField>;

    closed spec fn view(&self) -> Set<ServerField> {
        self.items@.to_set()
    }
}

impl FieldSet {
    #[verifier::type_invariant]
    spec fn inv(self) -> bool {
        self.items@.no_duplicates()
    }

    /// The empty set.
    pub fn new() -> (set: Self)
        ensures
            set@ == Set::<ServerField>::empty(),
            set@.len() == 0,
    {
        let set = FieldSet { items: Vec::new() };
        assert(set.items@.to_set() =~= Set::<ServerField>::empty());
        set
    }

    /// The set of the fields in `fields`, however often each is named.
    pub fn from_slice(fields: &[ServerField]) -> (set: Self)
        ensures
            set@ == fields@.to_set(),
    {
        let mut set = FieldSet::new();
        let mut at: usize = 0;
        while at < fields.len()
            invariant
                at <= fields.len(),
                set@ == fields@.take(at as int).to_set(),
            decreases fields.len() - at,
        {
            set.insert(fields[at]);
            proof {
                let before = fields@.take(at as int);
                assert(fields@.take(at + 1) == before.push(fields@[at as int]));
                before.lemma_push_to_set_commute(fields@[at as int]);
            }
            at += 1;
        }
        assert(fields@.take(at as int) == fields@);
        set
    }

    /// Whether `field` is in the set.
    pub fn contains(&self, field: ServerField) -> (found: bool)
        ensures
            found == self@.contains(field),
    {
        let mut at: usize = 0;
        while at < self.items.len()
            invariant
                at <= self.items.len(),
                forall|i: int| 0 <= i < at ==> self.items@[i] != field,
            decreases self.items.len() - at,
        {
            if self.items[at] == field {
                return true;
            }
            at += 1;
        }
        false
    }

    /// Puts `field` into the set, and says whether it was new to it.
    pub fn insert(&mut self, field: ServerField) -> (fresh: bool)
        ensures
            final(self)@ == old(self)@.insert(field),
            fresh == !old(self)@.contains(field),
    {
        proof {
            use_type_invariant(&*self);
        }
        if self.contains(field) {
            assert(self@.insert(field) =~= self@);
            false
        } else {
            let mut items: Vec<ServerField> = Vec::new();
            let mut at: usize = 0;
            while at < self.items.len()
                invariant
                    at <= self.items.len(),
                    items@ == self.items@.take(at as int),
                decreases self.items.len() - at,
            {
                items.push(self.items[at]);
                assert(self.items@.take(at + 1) == self.items@.take(at as int).push(
                    self.items@[at as int],
                ));
                at += 1;
            }
            assert(self.items@.take(at as int) == self.items@);
            proof {
                self.items@.lemma_push_to_set_commute(field);
            }
            items.push(field);
            self.items = items;
            true
        }
    }

    /// The number of fields in the set.
    pub fn len(&self) -> (count: usize)
        ensures
            count == self@.len(),
            self@.finite(),
    {
        proof {
            use_type_invariant(self);
            self.items@.unique_seq_to_set();
            vstd::seq_lib::seq_to_set_is_finite(self.items@);
        }
        self.items.len()
    }

    /// Whether no field is in the set.
    pub fn is_empty(&self) -> (empty: bool)
        ensures
            empty == (self@ == Set::<ServerField>::empty()),
    {
        proof {
            if self.items@.len() == 0 {
                assert(self@ =~= Set::<ServerField>::empty());
            } else {
                assert(self@.contains(self.items@[0]));
            }
        }
        self.items.len() == 0
    }

    /// The fields of the set, each once, in no order that means anything.
    pub fn as_slice(&self) -> (fields: &[ServerField])
        ensures
            fields@.to_set() == self@,
            fields@.no_duplicates(),
    {
        proof {
            use_type_invariant(self);
        }
        self.items.as_slice()
    }
}

/// The representation of the HTTP query supported by the server.
///
/// This type is exposed in order to make both the server and eventual
/// clients share the same kind of query.
#[derive(Debug)]
pub struct ServerQuery {
    /// The fields to include in the request. None stands for all of them.
    pub fields: FieldSet,
    /// The page requested.
    ///
    /// If omitted, the first page is implied.
    pub page: Option<usize>,
    /// The size of the page.
    ///
    /// If omitted, [`DEFAULT_PAGE_SIZE`] is implied.
    pub page_size: Option<u16>,
}

impl Clone for ServerQuery {
    /// The same query.
    fn clone(&self) -> (copy: Self)
        ensures
            copy.fields@ == self.fields@,
            copy.page == self.page,
            copy.page_size == self.page_size,
    {
        ServerQuery { fields: self.fields.clone(), page: self.page, page_size: self.page_size }
    }
}

impl Default for ServerQuery {
    /// The query for the first page of all fields, in the default size.
    fn default() -> (query: Self)
        ensures
            query.fields@ == Set::<ServerField>::empty(),
            query.page is None,
            query.page_size is None,
    {
        ServerQuery { fields: FieldSet::new(), page: None, page_size: None }
    }
}

impl ServerQuery {
    /// The page that the query means: the one it names, or the first.
    pub open spec fn spec_page(self) -> usize {
        match self.page {
            Some(page) => page,
            None => 0,
        }
    }

    /// The page size that the query means: the one it names, or the default.
    pub open spec fn spec_page_size(self) -> u16 {
        match self.page_size {
            Some(size) => size,
            None => DEFAULT_PAGE_SIZE,
        }
    }

    /// What the query costs; see [`query_cost`].
    pub open spec fn cost(self) -> nat {
        query_cost(self.fields@.len(), self.page_size)
    }

    /// The page that the query means: the one it names, or the first.
    pub fn effective_page(&self) -> (page: usize)
        ensures
            page == self.spec_page(),
    {
        match self.page {
            Some(page) => page,
            None => 0,
        }
    }

    /// The page size that the query means: the one it names, or the default.
    pub fn effective_page_size(&self) -> (size: u16)
        ensures
            size == self.spec_page_size(),
    {
        match self.page_size {
            Some(size) => size,
            None => DEFAULT_PAGE_SIZE,
        }
    }
}

/// The cost of a query that selects `selected` fields in pages of
/// `page_size`: the page size, or the default one, times the number of
/// selected fields, or of all fields where none is selected; and never more
/// than the largest 16-bit number.
pub open spec fn query_cost(selected: nat, page_size: Option<u16>) -> nat {
    let fields: nat = if selected == 0 {
        FIELDS_LEN as nat
    } else if selected > u16::MAX {
        u16::MAX as nat
    } else {
        selected
    };
    let size: nat = match page_size {
        Some(size) => size as nat,
        None => DEFAULT_PAGE_SIZE as nat,
    };
    if size * fields > u16::MAX {
        u16::MAX as nat
    } else {
        size * fields
    }
}

/// Calculate the cost of a given query.
///
/// This is useful to evaluate if a leaky bucket has enough free capacity to
/// handle a specific request.
#[must_use]
pub fn calc_query_cost(query: &ServerQuery) -> (cost: u16)
    ensures
        cost == query.cost(),
        cost == query_cost(query.fields@.len(), query.page_size),
{
    let selected = query.fields.len();
    let fields_cost: u16 = if selected == 0 {
        FIELDS_LEN as u16
    } else if selected > u16::MAX as usize {
        u16::MAX
    } else {
        selected as u16
    };
    match query.effective_page_size().checked_mul(fields_cost) {
        Some(cost) => cost,
        None => u16::MAX,
    }
}

/// A run of records: those from `start` up to, and without, `end`.
#[derive(Clone, Copy, Debug, PartialEq, Eq, Structural)]
pub struct PageRange {
    /// The first record of the page.
    pub start: usize,
    /// The record after the last one of the page.
    pub end: usize,
}

/// Where page number `page` starts among `records` records cut into pages
/// of `page_size`: after the pages before it, and at the end of the records
/// where they do not reach that far.
pub open spec fn page_start(records: nat, page: nat, page_size: nat) -> nat {
    if page * page_size > records {
        records
    } else {
        page * page_size
    }
}

/// Where the page that starts at [`page_start`] ends: a page size further,
/// or at the end of the records.
pub open spec fn page_end(records: nat, page: nat, page_size: nat) -> nat {
    if page * page_size + page_size > records {
        records
    } else {
        page * page_size + page_size
    }
}

/// Selects the page that `query` asks for among `records` records: the
/// records of that page, which are none where the page lies beyond the last
/// record. The page size must not be zero.
pub fn select_page(records: usize, query: &ServerQuery) -> (range: PageRange)
    requires
        query.spec_page_size() > 0,
    ensures
        range.start == page_start(
            records as nat,
            query.spec_page() as nat,
            query.spec_page_size() as nat,
        ),
        range.end == page_end(
            records as nat,
            query.spec_page() as nat,
            query.spec_page_size() as nat,
        ),
        range.start <= range.end <= records,
{
    let size: usize = query.effective_page_size() as usize;
    let start: usize = match query.effective_page().checked_mul(size) {
        Some(start) => if start > records {
            records
        } else {
            start
        },
        None => records,
    };
    let end: usize = if records - start < size {
        records
    } else {
        start + size
    };
    PageRange { start, end }
}

} // verus!
