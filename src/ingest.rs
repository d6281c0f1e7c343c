use vstd::prelude::*;
use vstd::string::StringSliceAdditionalSpecFns;
use vstd::utf8::{decode_utf8, valid_utf8};

use crate::external::{accepted_pass, parse_record, parsed_view, utf8_text};
use crate::record::{leg_widths, pass_wf, within_widths, BoardingPass, FlightLeg, SecurityBlock};

verus! {

broadcast use vstd::utf8::encode_utf8_decode_utf8;

/// The bytes of a text field, exactly as they stand in the text.
pub fn text_bytes(s: &str) -> (r: Vec<u8>)
    ensures
        r@ == s.spec_bytes(),
{
    vstd::slice::slice_to_vec(s.as_bytes())
}

/// The byte of a one-character field.
pub fn char_bytes(c: char) -> (r: Vec<u8>)
    ensures
        r@ == seq![c as u8],
{
    let r = vec![c as u8];
    assert(r@ =~= seq![c as u8]);
    r
}

/// The bytes of an optional text field.
pub fn opt_text_bytes(o: Option<&str>) -> (r: Option<Vec<u8>>)
    ensures
        r.is_some() == o.is_some(),
        o matches Some(s) ==> r->Some_0@ == s.spec_bytes(),
{
    match o {
        Some(s) => Some(text_bytes(s)),
        None => None,
    }
}

/// The byte of an optional one-character field.
pub fn opt_char_bytes(o: Option<char>) -> (r: Option<Vec<u8>>)
    ensures
        r.is_some() == o.is_some(),
        o matches Some(c) ==> r->Some_0@ == seq![c as u8],
{
    match o {
        Some(c) => Some(char_bytes(c)),
        None => None,
    }
}

/// Copies every field of a parsed leg.
fn leg_from(leg: &iata_bcbp::Leg) -> (r: FlightLeg)
    ensures
        within_widths(r@, leg_widths()),
{
    FlightLeg {
        operating_carrier_pnr_code: text_bytes(leg.operating_carrier_pnr_code()),
        from_city_airport_code: text_bytes(leg.from_city_airport_code()),
        to_city_airport_code: text_bytes(leg.to_city_airport_code()),
        operating_carrier_designator: text_bytes(leg.operating_carrier_designator()),
        flight_number: text_bytes(leg.flight_number()),
        date_of_flight: text_bytes(leg.date_of_flight()),
        compartment_code: char_bytes(leg.compartment_code()),
        seat_number: text_bytes(leg.seat_number()),
        check_in_sequence_number: text_bytes(leg.check_in_sequence_number()),
        passenger_status: char_bytes(leg.passenger_status()),
        airline_numeric_code: opt_text_bytes(leg.airline_numeric_code()),
        document_form_serial_number: opt_text_bytes(leg.document_form_serial_number()),
        selectee_indicator: opt_char_bytes(leg.selectee_indicator()),
        international_document_verification: opt_char_bytes(
            leg.international_document_verification(),
        ),
        marketing_carrier_designator: opt_text_bytes(leg.marketing_carrier_designator()),
        frequent_flyer_airline_designator: opt_text_bytes(leg.frequent_flyer_airline_designator()),
        frequent_flyer_number: opt_text_bytes(leg.frequent_flyer_number()),
        id_ad_indicator: opt_char_bytes(leg.id_ad_indicator()),
        free_baggage_allowance: opt_text_bytes(leg.free_baggage_allowance()),
        fast_track: opt_char_bytes(leg.fast_track()),
        airline_individual_use: opt_text_bytes(leg.airline_individual_use()),
    }
}

/// Copies every field of a parsed boarding pass, legs in document order.
pub(crate) fn pass_from(pass: &iata_bcbp::Bcbp) -> (r: BoardingPass)
    ensures
        pass_wf(r@),
{
    let parsed_legs = pass.legs();
    let mut legs: Vec<FlightLeg> = Vec::new();
    let mut i: usize = 0;
    while i < parsed_legs.len()
        invariant
            0 <= i <= parsed_legs@.len(),
            forall|k: int|
                0 <= k < legs@.len() ==> within_widths(#[trigger] legs@[k]@, leg_widths()),
        decreases parsed_legs@.len() - i,
    {
        legs.push(leg_from(&parsed_legs[i]));
        i = i + 1;
    }
    let security = pass.security_data();
    BoardingPass {
        passenger_name: text_bytes(pass.passenger_name()),
        electronic_ticket_indicator: char_bytes(pass.electronic_ticket_indicator()),
        version_number: opt_char_bytes(pass.version_number()),
        passenger_description: opt_char_bytes(pass.passenger_description()),
        source_of_check_in: opt_char_bytes(pass.source_of_check_in()),
        source_of_boarding_pass_issuance: opt_char_bytes(pass.source_of_boarding_pass_issuance()),
        date_of_issue_of_boarding_pass: opt_text_bytes(pass.date_of_issue_of_boarding_pass()),
        document_type: opt_char_bytes(pass.document_type()),
        airline_designator_of_boarding_pass_issuer: opt_text_bytes(
            pass.airline_designator_of_boarding_pass_issuer(),
        ),
        baggage_tag_license_plate_numbers: opt_text_bytes(pass.baggage_tag_license_plate_numbers()),
        first_non_consecutive_baggage_tag_license_plate_numbers: opt_text_bytes(
            pass.first_non_consecutive_baggage_tag_license_plate_numbers(),
        ),
        second_non_consecutive_baggage_tag_license_plate_numbers: opt_text_bytes(
            pass.second_non_consecutive_baggage_tag_license_plate_numbers(),
        ),
        security: SecurityBlock {
            type_of_security_data: opt_char_bytes(security.type_of_security_data()),
            security_data: opt_text_bytes(security.security_data()),
        },
        legs,
    }
}

/// Whether raw input bytes make a boarding pass: they are valid UTF-8, and the parser accepts
/// the text they encode.
pub open spec fn readable_pass(bytes: Seq<u8>) -> bool {
    valid_utf8(bytes) && accepted_pass(decode_utf8(bytes))
}

/// Validates raw input bytes as text and parses the text as a boarding pass.
pub fn read_pass(bytes: &[u8]) -> (r: Option<BoardingPass>)
    ensures
        r.is_some() == readable_pass(bytes@),
        r matches Some(p) ==> p@ == parsed_view(decode_utf8(bytes@)) && pass_wf(p@),
        bytes@.len() == 0 ==> r.is_none(),
{
    match utf8_text(bytes) {
        None => None,
        Some(text) => {
            assert(text@ == decode_utf8(bytes@));
            let r = parse_record(text);
            if bytes.len() == 0 {
                assert(text@ =~= Seq::<char>::empty());
            }
            r
        },
    }
}

} // verus!
