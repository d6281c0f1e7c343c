use vstd::prelude::*;
use vstd::string::StringSliceAdditionalSpecFns;
use vstd::utf8::{is_ascii_chars, valid_utf8};

use crate::ingest::pass_from;
use crate::record::{groups_view, pass_wf, BoardingPass, PassView};

verus! {

// The parser's record types are opaque here. Values of them are only carried and read through
// the getters below, which state nothing of what they return: the library copies each field
// out verbatim.

/// `iata_bcbp::Bcbp`, a parsed boarding pass.
#[verifier::external_type_specification]
#[verifier::external_body]
pub struct ExBcbp(iata_bcbp::Bcbp);

/// `iata_bcbp::Leg`, one parsed flight leg.
#[verifier::external_type_specification]
#[verifier::external_body]
pub struct ExLeg(iata_bcbp::Leg);

/// `iata_bcbp::SecurityData`, the parsed security section.
#[verifier::external_type_specification]
#[verifier::external_body]
pub struct ExSecurityData(iata_bcbp::SecurityData);

/// Relies on `iata_bcbp::Bcbp::legs`: it returns a stored field and cannot panic.
pub assume_specification[ iata_bcbp::Bcbp::legs ](pass: &iata_bcbp::Bcbp) -> &[iata_bcbp::Leg];

/// Relies on `iata_bcbp::Bcbp::security_data`: it returns a stored field and cannot panic.
pub assume_specification[ iata_bcbp::Bcbp::security_data ](
    pass: &iata_bcbp::Bcbp,
) -> &iata_bcbp::SecurityData;

/// Relies on `iata_bcbp::Bcbp::electronic_ticket_indicator`: it returns a stored field and cannot
/// panic.
pub assume_specification[ iata_bcbp::Bcbp::electronic_ticket_indicator ](
    pass: &iata_bcbp::Bcbp,
) -> char;

/// Relies on `iata_bcbp::Bcbp::version_number`: it returns a stored field and cannot panic.
pub assume_specification[ iata_bcbp::Bcbp::version_number ](pass: &iata_bcbp::Bcbp) -> Option<char>;

/// Relies on `iata_bcbp::Bcbp::passenger_description`: it returns a stored field and cannot panic.
pub assume_specification[ iata_bcbp::Bcbp::passenger_description ](
    pass: &iata_bcbp::Bcbp,
) -> Option<char>;

/// Relies on `iata_bcbp::Bcbp::passenger_name`: it returns a stored field, held in an `ArrayString`
/// of capacity 20 bytes, and cannot panic.
pub assume_specification[ iata_bcbp::Bcbp::passenger_name ](pass: &iata_bcbp::Bcbp) -> (r: &str)
    ensures
        r.spec_bytes().len() <= 20,
;

/// Relies on `iata_bcbp::Bcbp::source_of_check_in`: it returns a stored field and cannot panic.
pub assume_specification[ iata_bcbp::Bcbp::source_of_check_in ](
    pass: &iata_bcbp::Bcbp,
) -> Option<char>;

/// Relies on `iata_bcbp::Bcbp::source_of_boarding_pass_issuance`: it returns a stored field and
/// cannot panic.
pub assume_specification[ iata_bcbp::Bcbp::source_of_boarding_pass_issuance ](
    pass: &iata_bcbp::Bcbp,
) -> Option<char>;

/// Relies on `iata_bcbp::Bcbp::date_of_issue_of_boarding_pass`: it returns a stored field, held in
/// an `ArrayString` of capacity 4 bytes, and cannot panic.
pub assume_specification[ iata_bcbp::Bcbp::date_of_issue_of_boarding_pass ](
    pass: &iata_bcbp::Bcbp,
) -> (r: Option<&str>)
    ensures
        r matches Some(t) ==> t.spec_bytes().len() <= 4,
;

/// Relies on `iata_bcbp::Bcbp::document_type`: it returns a stored field and cannot panic.
pub assume_specification[ iata_bcbp::Bcbp::document_type ](pass: &iata_bcbp::Bcbp) -> Option<char>;

/// Relies on `iata_bcbp::Bcbp::airline_designator_of_boarding_pass_issuer`: it returns a stored
/// field, held in an `ArrayString` of capacity 3 bytes, and cannot panic.
pub assume_specification[ iata_bcbp::Bcbp::airline_designator_of_boarding_pass_issuer ](
    pass: &iata_bcbp::Bcbp,
) -> (r: Option<&str>)
    ensures
        r matches Some(t) ==> t.spec_bytes().len() <= 3,
;

/// Relies on `iata_bcbp::Bcbp::baggage_tag_license_plate_numbers`: it returns a stored field, held
/// in an `ArrayString` of capacity 13 bytes, and cannot panic.
pub assume_specification[ iata_bcbp::Bcbp::baggage_tag_license_plate_numbers ](
    pass: &iata_bcbp::Bcbp,
) -> (r: Option<&str>)
    ensures
        r matches Some(t) ==> t.spec_bytes().len() <= 13,
;

/// Relies on `iata_bcbp::Bcbp::first_non_consecutive_baggage_tag_license_plate_numbers`: it returns
/// a stored field, held in an `ArrayString` of capacity 13 bytes, and cannot panic.
pub assume_specification[ iata_bcbp::Bcbp::first_non_consecutive_baggage_tag_license_plate_numbers ](
    pass: &iata_bcbp::Bcbp,
) -> (r: Option<&str>)
    ensures
        r matches Some(t) ==> t.spec_bytes().len() <= 13,
;

/// Relies on `iata_bcbp::Bcbp::second_non_consecutive_baggage_tag_license_plate_numbers`: it
/// returns a stored field, held in an `ArrayString` of capacity 13 bytes, and cannot panic.
pub assume_specification[ iata_bcbp::Bcbp::second_non_consecutive_baggage_tag_license_plate_numbers ](
    pass: &iata_bcbp::Bcbp,
) -> (r: Option<&str>)
    ensures
        r matches Some(t) ==> t.spec_bytes().len() <= 13,
;

/// Relies on `iata_bcbp::SecurityData::type_of_security_data`: it returns a stored field and cannot
/// panic.
pub assume_specification[ iata_bcbp::SecurityData::type_of_security_data ](
    security: &iata_bcbp::SecurityData,
) -> Option<char>;

/// Relies on `iata_bcbp::SecurityData::security_data`: it returns a stored field and cannot panic.
pub assume_specification[ iata_bcbp::SecurityData::security_data ](
    security: &iata_bcbp::SecurityData,
) -> Option<&str>;

/// Relies on `iata_bcbp::Leg::operating_carrier_pnr_code`: it returns a stored field, held in an
/// `ArrayString` of capacity 7 bytes, and cannot panic.
pub assume_specification[ iata_bcbp::Leg::operating_carrier_pnr_code ](
    leg: &iata_bcbp::Leg,
) -> (r: &str)
    ensures
        r.spec_bytes().len() <= 7,
;

/// Relies on `iata_bcbp::Leg::from_city_airport_code`: it returns a stored field, held in an
/// `ArrayString` of capacity 3 bytes, and cannot panic.
pub assume_specification[ iata_bcbp::Leg::from_city_airport_code ](
    leg: &iata_bcbp::Leg,
) -> (r: &str)
    ensures
        r.spec_bytes().len() <= 3,
;

/// Relies on `iata_bcbp::Leg::to_city_airport_code`: it returns a stored field, held in an
/// `ArrayString` of capacity 3 bytes, and cannot panic.
pub assume_specification[ iata_bcbp::Leg::to_city_airport_code ](leg: &iata_bcbp::Leg) -> (r: &str)
    ensures
        r.spec_bytes().len() <= 3,
;

/// Relies on `iata_bcbp::Leg::marketing_carrier_designator`: it returns a stored field, held in an
/// `ArrayString` of capacity 3 bytes, and cannot panic.
pub assume_specification[ iata_bcbp::Leg::marketing_carrier_designator ](
    leg: &iata_bcbp::Leg,
) -> (r: Option<&str>)
    ensures
        r matches Some(t) ==> t.spec_bytes().len() <= 3,
;

/// Relies on `iata_bcbp::Leg::frequent_flyer_airline_designator`: it returns a stored field, held
/// in an `ArrayString` of capacity 3 bytes, and cannot panic.
pub assume_specification[ iata_bcbp::Leg::frequent_flyer_airline_designator ](
    leg: &iata_bcbp::Leg,
) -> (r: Option<&str>)
    ensures
        r matches Some(t) ==> t.spec_bytes().len() <= 3,
;

/// Relies on `iata_bcbp::Leg::frequent_flyer_number`: it returns a stored field, held in an
/// `ArrayString` of capacity 16 bytes, and cannot panic.
pub assume_specification[ iata_bcbp::Leg::frequent_flyer_number ](
    leg: &iata_bcbp::Leg,
) -> (r: Option<&str>)
    ensures
        r matches Some(t) ==> t.spec_bytes().len() <= 16,
;

/// Relies on `iata_bcbp::Leg::id_ad_indicator`: it returns a stored field and cannot panic.
pub assume_specification[ iata_bcbp::Leg::id_ad_indicator ](leg: &iata_bcbp::Leg) -> Option<char>;

/// Relies on `iata_bcbp::Leg::operating_carrier_designator`: it returns a stored field, held in an
/// `ArrayString` of capacity 3 bytes, and cannot panic.
pub assume_specification[ iata_bcbp::Leg::operating_carrier_designator ](
    leg: &iata_bcbp::Leg,
) -> (r: &str)
    ensures
        r.spec_bytes().len() <= 3,
;

/// Relies on `iata_bcbp::Leg::flight_number`: it returns a stored field, held in an `ArrayString`
/// of capacity 5 bytes, and cannot panic.
pub assume_specification[ iata_bcbp::Leg::flight_number ](leg: &iata_bcbp::Leg) -> (r: &str)
    ensures
        r.spec_bytes().len() <= 5,
;

/// Relies on `iata_bcbp::Leg::date_of_flight`: it returns a stored field, held in an `ArrayString`
/// of capacity 3 bytes, and cannot panic.
pub assume_specification[ iata_bcbp::Leg::date_of_flight ](leg: &iata_bcbp::Leg) -> (r: &str)
    ensures
        r.spec_bytes().len() <= 3,
;

/// Relies on `iata_bcbp::Leg::compartment_code`: it returns a stored field and cannot panic.
pub assume_specification[ iata_bcbp::Leg::compartment_code ](leg: &iata_bcbp::Leg) -> char;

/// Relies on `iata_bcbp::Leg::seat_number`: it returns a stored field, held in an `ArrayString` of
/// capacity 4 bytes, and cannot panic.
pub assume_specification[ iata_bcbp::Leg::seat_number ](leg: &iata_bcbp::Leg) -> (r: &str)
    ensures
        r.spec_bytes().len() <= 4,
;

/// Relies on `iata_bcbp::Leg::check_in_sequence_number`: it returns a stored field, held in an
/// `ArrayString` of capacity 5 bytes, and cannot panic.
pub assume_specification[ iata_bcbp::Leg::check_in_sequence_number ](
    leg: &iata_bcbp::Leg,
) -> (r: &str)
    ensures
        r.spec_bytes().len() <= 5,
;

/// Relies on `iata_bcbp::Leg::passenger_status`: it returns a stored field and cannot panic.
pub assume_specification[ iata_bcbp::Leg::passenger_status ](leg: &iata_bcbp::Leg) -> char;

/// Relies on `iata_bcbp::Leg::airline_numeric_code`: it returns a stored field, held in an
/// `ArrayString` of capacity 3 bytes, and cannot panic.
pub assume_specification[ iata_bcbp::Leg::airline_numeric_code ](
    leg: &iata_bcbp::Leg,
) -> (r: Option<&str>)
    ensures
        r matches Some(t) ==> t.spec_bytes().len() <= 3,
;

/// Relies on `iata_bcbp::Leg::document_form_serial_number`: it returns a stored field, held in an
/// `ArrayString` of capacity 10 bytes, and cannot panic.
pub assume_specification[ iata_bcbp::Leg::document_form_serial_number ](
    leg: &iata_bcbp::Leg,
) -> (r: Option<&str>)
    ensures
        r matches Some(t) ==> t.spec_bytes().len() <= 10,
;

/// Relies on `iata_bcbp::Leg::selectee_indicator`: it returns a stored field and cannot panic.
pub assume_specification[ iata_bcbp::Leg::selectee_indicator ](
    leg: &iata_bcbp::Leg,
) -> Option<char>;

/// Relies on `iata_bcbp::Leg::international_document_verification`: it returns a stored field and
/// cannot panic.
pub assume_specification[ iata_bcbp::Leg::international_document_verification ](
    leg: &iata_bcbp::Leg,
) -> Option<char>;

/// Relies on `iata_bcbp::Leg::fast_track`: it returns a stored field and cannot panic.
pub assume_specification[ iata_bcbp::Leg::fast_track ](leg: &iata_bcbp::Leg) -> Option<char>;

/// Relies on `iata_bcbp::Leg::free_baggage_allowance`: it returns a stored field, held in an
/// `ArrayString` of capacity 3 bytes, and cannot panic.
pub assume_specification[ iata_bcbp::Leg::free_baggage_allowance ](
    leg: &iata_bcbp::Leg,
) -> (r: Option<&str>)
    ensures
        r matches Some(t) ==> t.spec_bytes().len() <= 3,
;

/// Relies on `iata_bcbp::Leg::airline_individual_use`: it returns a stored field and cannot panic.
pub assume_specification[ iata_bcbp::Leg::airline_individual_use ](
    leg: &iata_bcbp::Leg,
) -> Option<&str>;

/// Whether `iata_bcbp` accepts a text as a boarding pass; it depends on the text alone.
pub uninterp spec fn accepted_pass(text: Seq<char>) -> bool;

/// What `iata_bcbp` parses a text into, with every field copied out verbatim; it depends on the
/// text alone.
pub uninterp spec fn parsed_view(text: Seq<char>) -> PassView;

/// Relies on `<iata_bcbp::Bcbp as FromStr>::from_str` (which calls `iata_bcbp::from_str`): its
/// result depends on the text alone, and it refuses any text that is not ASCII or does not
/// start with `M`. The parsed record is copied into the library's own type by the verified
/// `pass_from`.
#[verifier::external_body]
pub(crate) fn parse_record(text: &str) -> (r: Option<BoardingPass>)
    ensures
        r.is_some() == accepted_pass(text@),
        r matches Some(p) ==> p@ == parsed_view(text@) && pass_wf(p@),
        r.is_some() ==> text@.len() > 0 && text@[0] == 'M' && is_ascii_chars(text@),
{
    <iata_bcbp::Bcbp as std::str::FromStr>::from_str(text).ok().map(|p| pass_from(&p))
}

/// Relies on `std::str::from_utf8`: it accepts exactly the valid UTF-8 byte sequences, and the
/// text it returns is made of those bytes.
#[verifier::external_body]
pub(crate) fn utf8_text(bytes: &[u8]) -> (r: Option<&str>)
    ensures
        r.is_some() == valid_utf8(bytes@),
        r matches Some(s) ==> s.spec_bytes() == bytes@,
{
    std::str::from_utf8(bytes).ok()
}

/// The hash that `std::collections::hash_map::DefaultHasher` gives a list of field lists.
pub uninterp spec fn default_hash(groups: Seq<Seq<Option<Seq<u8>>>>) -> u64;

/// Relies on `std::collections::hash_map::DefaultHasher`: every hasher made by `new` starts in
/// the same state, and `Hash` for vectors and options feeds the hasher their contents alone.
#[verifier::external_body]
pub(crate) fn hash_groups(g: &Vec<Vec<Option<Vec<u8>>>>) -> (r: u64)
    ensures
        r == default_hash(groups_view(g@)),
{
    let mut hasher = std::collections::hash_map::DefaultHasher::new();
    std::hash::Hash::hash(g, &mut hasher);
    std::hash::Hasher::finish(&hasher)
}

} // verus!
