use vstd::prelude::*;

use crate::field_id::{BcbpFieldId, BcbpFlightLegFieldId, BcbpSecurityFieldId};

verus! {

/// The bytes of an optional field, as a mathematical value.
pub open spec fn opt_bytes(o: Option<Vec<u8>>) -> Option<Seq<u8>> {
    match o {
        Some(v) => Some(v@),
        None => None,
    }
}

/// A list of optional fields, as a mathematical value.
pub open spec fn field_list(v: Seq<Option<Vec<u8>>>) -> Seq<Option<Seq<u8>>> {
    v.map_values(|o: Option<Vec<u8>>| opt_bytes(o))
}

/// One flight segment of a boarding pass; every field holds the field's raw bytes.
#[derive(Debug)]
pub struct FlightLeg {
    pub operating_carrier_pnr_code: Vec<u8>,
    pub from_city_airport_code: Vec<u8>,
    pub to_city_airport_code: Vec<u8>,
    pub operating_carrier_designator: Vec<u8>,
    pub flight_number: Vec<u8>,
    pub date_of_flight: Vec<u8>,
    pub compartment_code: Vec<u8>,
    pub seat_number: Vec<u8>,
    pub check_in_sequence_number: Vec<u8>,
    pub passenger_status: Vec<u8>,
    pub airline_numeric_code: Option<Vec<u8>>,
    pub document_form_serial_number: Option<Vec<u8>>,
    pub selectee_indicator: Option<Vec<u8>>,
    pub international_document_verification: Option<Vec<u8>>,
    pub marketing_carrier_designator: Option<Vec<u8>>,
    pub frequent_flyer_airline_designator: Option<Vec<u8>>,
    pub frequent_flyer_number: Option<Vec<u8>>,
    pub id_ad_indicator: Option<Vec<u8>>,
    pub free_baggage_allowance: Option<Vec<u8>>,
    pub fast_track: Option<Vec<u8>>,
    pub airline_individual_use: Option<Vec<u8>>,
}

/// The optional security section of a boarding pass.
#[derive(Debug)]
pub struct SecurityBlock {
    pub type_of_security_data: Option<Vec<u8>>,
    pub security_data: Option<Vec<u8>>,
}

/// A parsed boarding pass; every field holds the field's raw bytes.
#[derive(Debug)]
pub struct BoardingPass {
    pub passenger_name: Vec<u8>,
    pub electronic_ticket_indicator: Vec<u8>,
    pub version_number: Option<Vec<u8>>,
    pub passenger_description: Option<Vec<u8>>,
    pub source_of_check_in: Option<Vec<u8>>,
    pub source_of_boarding_pass_issuance: Option<Vec<u8>>,
    pub date_of_issue_of_boarding_pass: Option<Vec<u8>>,
    pub document_type: Option<Vec<u8>>,
    pub airline_designator_of_boarding_pass_issuer: Option<Vec<u8>>,
    pub baggage_tag_license_plate_numbers: Option<Vec<u8>>,
    pub first_non_consecutive_baggage_tag_license_plate_numbers: Option<Vec<u8>>,
    pub second_non_consecutive_baggage_tag_license_plate_numbers: Option<Vec<u8>>,
    pub security: SecurityBlock,
    pub legs: Vec<FlightLeg>,
}

/// The value of a leg field: required fields are always present, `Unknown` never is.
pub open spec fn leg_field(l: FlightLeg, id: BcbpFlightLegFieldId) -> Option<Seq<u8>> {
    match id {
        BcbpFlightLegFieldId::Unknown => None,
        BcbpFlightLegFieldId::OperatingCarrierPNRCode => Some(l.operating_carrier_pnr_code@),
        BcbpFlightLegFieldId::FromCityAirportCode => Some(l.from_city_airport_code@),
        BcbpFlightLegFieldId::ToCityAirportCode => Some(l.to_city_airport_code@),
        BcbpFlightLegFieldId::OperatingCarrierDesignator => Some(l.operating_carrier_designator@),
        BcbpFlightLegFieldId::FlightNumber => Some(l.flight_number@),
        BcbpFlightLegFieldId::DateOfFlight => Some(l.date_of_flight@),
        BcbpFlightLegFieldId::CompartmentCode => Some(l.compartment_code@),
        BcbpFlightLegFieldId::SeatNumber => Some(l.seat_number@),
        BcbpFlightLegFieldId::CheckInSequenceNumber => Some(l.check_in_sequence_number@),
        BcbpFlightLegFieldId::PassengerStatus => Some(l.passenger_status@),
        BcbpFlightLegFieldId::AirlineNumericCode => opt_bytes(l.airline_numeric_code),
        BcbpFlightLegFieldId::DocumentFormSerialNumber => opt_bytes(l.document_form_serial_number),
        BcbpFlightLegFieldId::SelecteeIndicator => opt_bytes(l.selectee_indicator),
        BcbpFlightLegFieldId::InternationalDocumentVerification => opt_bytes(
            l.international_document_verification,
        ),
        BcbpFlightLegFieldId::MarketingCarrierDesignator => opt_bytes(
            l.marketing_carrier_designator,
        ),
        BcbpFlightLegFieldId::FrequentFlyerAirlineDesignator => opt_bytes(
            l.frequent_flyer_airline_designator,
        ),
        BcbpFlightLegFieldId::FrequentFlyerNumber => opt_bytes(l.frequent_flyer_number),
        BcbpFlightLegFieldId::IdAdIndicator => opt_bytes(l.id_ad_indicator),
        BcbpFlightLegFieldId::FreeBaggageAllowance => opt_bytes(l.free_baggage_allowance),
        BcbpFlightLegFieldId::FastTrack => opt_bytes(l.fast_track),
        BcbpFlightLegFieldId::AirlineIndividualUse => opt_bytes(l.airline_individual_use),
    }
}

/// The value of a security field; `Unknown` is never present.
pub open spec fn security_field(s: SecurityBlock, id: BcbpSecurityFieldId) -> Option<Seq<u8>> {
    match id {
        BcbpSecurityFieldId::Unknown => None,
        BcbpSecurityFieldId::TypeOfSecurityData => opt_bytes(s.type_of_security_data),
        BcbpSecurityFieldId::SecurityData => opt_bytes(s.security_data),
    }
}

/// The value of a document-level field: required fields are always present, `Unknown` never is.
pub open spec fn root_field(p: BoardingPass, id: BcbpFieldId) -> Option<Seq<u8>> {
    match id {
        BcbpFieldId::Unknown => None,
        BcbpFieldId::PassengerName => Some(p.passenger_name@),
        BcbpFieldId::ElectronicTicketIndicator => Some(p.electronic_ticket_indicator@),
        BcbpFieldId::VersionNumber => opt_bytes(p.version_number),
        BcbpFieldId::PassengerDescription => opt_bytes(p.passenger_description),
        BcbpFieldId::SourceOfCheckIn => opt_bytes(p.source_of_check_in),
        BcbpFieldId::SourceOfBoardingPassIssuance => opt_bytes(p.source_of_boarding_pass_issuance),
        BcbpFieldId::DateOfIssueOfBoardingPass => opt_bytes(p.date_of_issue_of_boarding_pass),
        BcbpFieldId::DocumentType => opt_bytes(p.document_type),
        BcbpFieldId::AirlineDesignatorOfBoardingPassIssuer => opt_bytes(
            p.airline_designator_of_boarding_pass_issuer,
        ),
        BcbpFieldId::BaggageTagLicensePlateNumbers => opt_bytes(
            p.baggage_tag_license_plate_numbers,
        ),
        BcbpFieldId::FirstNonConsecutiveBaggageTagLicensePlateNumbers => opt_bytes(
            p.first_non_consecutive_baggage_tag_license_plate_numbers,
        ),
        BcbpFieldId::SecondNonConsecutiveBaggageTagLicensePlateNumbers => opt_bytes(
            p.second_non_consecutive_baggage_tag_license_plate_numbers,
        ),
    }
}

/// The whole content of a boarding pass: its document-level fields, its security fields and
/// its legs, each as the list of its fields in identifier order.
pub struct PassView {
    pub root: Seq<Option<Seq<u8>>>,
    pub security: Seq<Option<Seq<u8>>>,
    pub legs: Seq<Seq<Option<Seq<u8>>>>,
}

impl View for FlightLeg {
    type V = Seq<Option<Seq<u8>>>;

    open spec fn view(&self) -> Seq<Option<Seq<u8>>> {
        seq![
            leg_field(*self, BcbpFlightLegFieldId::OperatingCarrierPNRCode),
            leg_field(*self, BcbpFlightLegFieldId::FromCityAirportCode),
            leg_field(*self, BcbpFlightLegFieldId::ToCityAirportCode),
            leg_field(*self, BcbpFlightLegFieldId::OperatingCarrierDesignator),
            leg_field(*self, BcbpFlightLegFieldId::FlightNumber),
            leg_field(*self, BcbpFlightLegFieldId::DateOfFlight),
            leg_field(*self, BcbpFlightLegFieldId::CompartmentCode),
            leg_field(*self, BcbpFlightLegFieldId::SeatNumber),
            leg_field(*self, BcbpFlightLegFieldId::CheckInSequenceNumber),
            leg_field(*self, BcbpFlightLegFieldId::PassengerStatus),
            leg_field(*self, BcbpFlightLegFieldId::AirlineNumericCode),
            leg_field(*self, BcbpFlightLegFieldId::DocumentFormSerialNumber),
            leg_field(*self, BcbpFlightLegFieldId::SelecteeIndicator),
            leg_field(*self, BcbpFlightLegFieldId::InternationalDocumentVerification),
            leg_field(*self, BcbpFlightLegFieldId::MarketingCarrierDesignator),
            leg_field(*self, BcbpFlightLegFieldId::FrequentFlyerAirlineDesignator),
            leg_field(*self, BcbpFlightLegFieldId::FrequentFlyerNumber),
            leg_field(*self, BcbpFlightLegFieldId::IdAdIndicator),
            leg_field(*self, BcbpFlightLegFieldId::FreeBaggageAllowance),
            leg_field(*self, BcbpFlightLegFieldId::FastTrack),
            leg_field(*self, BcbpFlightLegFieldId::AirlineIndividualUse),
        ]
    }
}

impl View for SecurityBlock {
    type V = Seq<Option<Seq<u8>>>;

    open spec fn view(&self) -> Seq<Option<Seq<u8>>> {
        seq![
            security_field(*self, BcbpSecurityFieldId::TypeOfSecurityData),
            security_field(*self, BcbpSecurityFieldId::SecurityData),
        ]
    }
}

/// The widest value, in bytes, of each document-level field, in identifier order.
pub open spec fn root_widths() -> Seq<int> {
    seq![20, 1, 1, 1, 1, 1, 4, 1, 3, 13, 13, 13]
}

/// The widest value, in bytes, of each leg field but the last, in identifier order; the
/// airline's individual-use field has no fixed width.
pub open spec fn leg_widths() -> Seq<int> {
    seq![7, 3, 3, 3, 5, 3, 1, 4, 5, 1, 3, 10, 1, 1, 3, 3, 16, 1, 3, 1]
}

/// The widest value, in bytes, of each security field but the last; the security data itself
/// has no fixed width.
pub open spec fn security_widths() -> Seq<int> {
    seq![1]
}

/// Whether each of the first fields of a list holds no more bytes than its width allows.
pub open spec fn within_widths(fs: Seq<Option<Seq<u8>>>, widths: Seq<int>) -> bool {
    forall|i: int| 0 <= i < widths.len() && fs[i] is Some ==> fs[i]->Some_0.len() <= widths[i]
}

/// The invariant of a parsed boarding pass: every field of fixed width holds no more bytes
/// than the format gives it.
pub open spec fn pass_wf(v: PassView) -> bool {
    &&& within_widths(v.root, root_widths())
    &&& within_widths(v.security, security_widths())
    &&& forall|i: int| 0 <= i < v.legs.len() ==> within_widths(#[trigger] v.legs[i], leg_widths())
}

/// The views of a sequence of legs, in order.
pub open spec fn legs_view(legs: Seq<FlightLeg>) -> Seq<Seq<Option<Seq<u8>>>> {
    legs.map_values(|l: FlightLeg| l@)
}

impl View for BoardingPass {
    type V = PassView;

    open spec fn view(&self) -> PassView {
        PassView {
            root: seq![
                root_field(*self, BcbpFieldId::PassengerName),
                root_field(*self, BcbpFieldId::ElectronicTicketIndicator),
                root_field(*self, BcbpFieldId::VersionNumber),
                root_field(*self, BcbpFieldId::PassengerDescription),
                root_field(*self, BcbpFieldId::SourceOfCheckIn),
                root_field(*self, BcbpFieldId::SourceOfBoardingPassIssuance),
                root_field(*self, BcbpFieldId::DateOfIssueOfBoardingPass),
                root_field(*self, BcbpFieldId::DocumentType),
                root_field(*self, BcbpFieldId::AirlineDesignatorOfBoardingPassIssuer),
                root_field(*self, BcbpFieldId::BaggageTagLicensePlateNumbers),
                root_field(*self, BcbpFieldId::FirstNonConsecutiveBaggageTagLicensePlateNumbers),
                root_field(*self, BcbpFieldId::SecondNonConsecutiveBaggageTagLicensePlateNumbers),
            ],
            security: self.security@,
            legs: legs_view(self.legs@),
        }
    }
}

/// Copies a byte buffer.
pub fn copy_bytes(v: &Vec<u8>) -> (r: Vec<u8>)
    ensures
        r@ == v@,
{
    vstd::slice::slice_to_vec(v.as_slice())
}

/// Copies an optional byte buffer.
pub fn copy_opt(o: &Option<Vec<u8>>) -> (r: Option<Vec<u8>>)
    ensures
        opt_bytes(r) == opt_bytes(*o),
{
    match o {
        Some(v) => Some(copy_bytes(v)),
        None => None,
    }
}

/// Whether two byte buffers hold the same bytes.
pub fn bytes_equal(a: &Vec<u8>, b: &Vec<u8>) -> (r: bool)
    ensures
        r == (a@ == b@),
{
    if a.len() != b.len() {
        return false;
    }
    let mut i: usize = 0;
    while i < a.len()
        invariant
            a@.len() == b@.len(),
            0 <= i <= a@.len(),
            a@.subrange(0, i as int) == b@.subrange(0, i as int),
        decreases a@.len() - i,
    {
        if a[i] != b[i] {
            assert(a@[i as int] != b@[i as int]);
            return false;
        }
        assert(a@.subrange(0, i + 1) == a@.subrange(0, i as int).push(a@[i as int]));
        assert(b@.subrange(0, i + 1) == b@.subrange(0, i as int).push(b@[i as int]));
        i = i + 1;
    }
    assert(a@ == a@.subrange(0, a@.len() as int));
    assert(b@ == b@.subrange(0, b@.len() as int));
    true
}

/// Whether two lists of optional fields hold the same values.
pub fn fields_equal(a: &Vec<Option<Vec<u8>>>, b: &Vec<Option<Vec<u8>>>) -> (r: bool)
    ensures
        r == (field_list(a@) == field_list(b@)),
{
    if a.len() != b.len() {
        assert(field_list(a@).len() != field_list(b@).len());
        return false;
    }
    let mut i: usize = 0;
    while i < a.len()
        invariant
            a@.len() == b@.len(),
            0 <= i <= a@.len(),
            forall|k: int| 0 <= k < i ==> opt_bytes(#[trigger] a@[k]) == opt_bytes(b@[k]),
        decreases a@.len() - i,
    {
        let same = match (&a[i], &b[i]) {
            (Some(x), Some(y)) => bytes_equal(x, y),
            (None, None) => true,
            _ => false,
        };
        if !same {
            assert(field_list(a@)[i as int] != field_list(b@)[i as int]);
            return false;
        }
        i = i + 1;
    }
    assert(field_list(a@) =~= field_list(b@));
    true
}

impl FlightLeg {
    /// Copies out the field that `id` names, if it is present.
    pub fn field(&self, id: BcbpFlightLegFieldId) -> (r: Option<Vec<u8>>)
        ensures
            opt_bytes(r) == leg_field(*self, id),
    {
        match id {
            BcbpFlightLegFieldId::Unknown => None,
            BcbpFlightLegFieldId::OperatingCarrierPNRCode => Some(
                copy_bytes(&self.operating_carrier_pnr_code),
            ),
            BcbpFlightLegFieldId::FromCityAirportCode => Some(
                copy_bytes(&self.from_city_airport_code),
            ),
            BcbpFlightLegFieldId::ToCityAirportCode => Some(copy_bytes(&self.to_city_airport_code)),
            BcbpFlightLegFieldId::OperatingCarrierDesignator => Some(
                copy_bytes(&self.operating_carrier_designator),
            ),
            BcbpFlightLegFieldId::FlightNumber => Some(copy_bytes(&self.flight_number)),
            BcbpFlightLegFieldId::DateOfFlight => Some(copy_bytes(&self.date_of_flight)),
            BcbpFlightLegFieldId::CompartmentCode => Some(copy_bytes(&self.compartment_code)),
            BcbpFlightLegFieldId::SeatNumber => Some(copy_bytes(&self.seat_number)),
            BcbpFlightLegFieldId::CheckInSequenceNumber => Some(
                copy_bytes(&self.check_in_sequence_number),
            ),
            BcbpFlightLegFieldId::PassengerStatus => Some(copy_bytes(&self.passenger_status)),
            BcbpFlightLegFieldId::AirlineNumericCode => copy_opt(&self.airline_numeric_code),
            BcbpFlightLegFieldId::DocumentFormSerialNumber => copy_opt(
                &self.document_form_serial_number,
            ),
            BcbpFlightLegFieldId::SelecteeIndicator => copy_opt(&self.selectee_indicator),
            BcbpFlightLegFieldId::InternationalDocumentVerification => copy_opt(
                &self.international_document_verification,
            ),
            BcbpFlightLegFieldId::MarketingCarrierDesignator => copy_opt(
                &self.marketing_carrier_designator,
            ),
            BcbpFlightLegFieldId::FrequentFlyerAirlineDesignator => copy_opt(
                &self.frequent_flyer_airline_designator,
            ),
            BcbpFlightLegFieldId::FrequentFlyerNumber => copy_opt(&self.frequent_flyer_number),
            BcbpFlightLegFieldId::IdAdIndicator => copy_opt(&self.id_ad_indicator),
            BcbpFlightLegFieldId::FreeBaggageAllowance => copy_opt(&self.free_baggage_allowance),
            BcbpFlightLegFieldId::FastTrack => copy_opt(&self.fast_track),
            BcbpFlightLegFieldId::AirlineIndividualUse => copy_opt(&self.airline_individual_use),
        }
    }

    /// All fields, in identifier order.
    pub fn fields(&self) -> (r: Vec<Option<Vec<u8>>>)
        ensures
            field_list(r@) == self@,
    {
        let r = vec![
            self.field(BcbpFlightLegFieldId::OperatingCarrierPNRCode),
            self.field(BcbpFlightLegFieldId::FromCityAirportCode),
            self.field(BcbpFlightLegFieldId::ToCityAirportCode),
            self.field(BcbpFlightLegFieldId::OperatingCarrierDesignator),
            self.field(BcbpFlightLegFieldId::FlightNumber),
            self.field(BcbpFlightLegFieldId::DateOfFlight),
            self.field(BcbpFlightLegFieldId::CompartmentCode),
            self.field(BcbpFlightLegFieldId::SeatNumber),
            self.field(BcbpFlightLegFieldId::CheckInSequenceNumber),
            self.field(BcbpFlightLegFieldId::PassengerStatus),
            self.field(BcbpFlightLegFieldId::AirlineNumericCode),
            self.field(BcbpFlightLegFieldId::DocumentFormSerialNumber),
            self.field(BcbpFlightLegFieldId::SelecteeIndicator),
            self.field(BcbpFlightLegFieldId::InternationalDocumentVerification),
            self.field(BcbpFlightLegFieldId::MarketingCarrierDesignator),
            self.field(BcbpFlightLegFieldId::FrequentFlyerAirlineDesignator),
            self.field(BcbpFlightLegFieldId::FrequentFlyerNumber),
            self.field(BcbpFlightLegFieldId::IdAdIndicator),
            self.field(BcbpFlightLegFieldId::FreeBaggageAllowance),
            self.field(BcbpFlightLegFieldId::FastTrack),
            self.field(BcbpFlightLegFieldId::AirlineIndividualUse),
        ];
        assert(field_list(r@) =~= self@);
        r
    }

    /// An independent copy of this leg.
    pub fn copy(&self) -> (r: FlightLeg)
        ensures
            r@ == self@,
    {
        FlightLeg {
            operating_carrier_pnr_code: copy_bytes(&self.operating_carrier_pnr_code),
            from_city_airport_code: copy_bytes(&self.from_city_airport_code),
            to_city_airport_code: copy_bytes(&self.to_city_airport_code),
            operating_carrier_designator: copy_bytes(&self.operating_carrier_designator),
            flight_number: copy_bytes(&self.flight_number),
            date_of_flight: copy_bytes(&self.date_of_flight),
            compartment_code: copy_bytes(&self.compartment_code),
            seat_number: copy_bytes(&self.seat_number),
            check_in_sequence_number: copy_bytes(&self.check_in_sequence_number),
            passenger_status: copy_bytes(&self.passenger_status),
            airline_numeric_code: copy_opt(&self.airline_numeric_code),
            document_form_serial_number: copy_opt(&self.document_form_serial_number),
            selectee_indicator: copy_opt(&self.selectee_indicator),
            international_document_verification: copy_opt(
                &self.international_document_verification,
            ),
            marketing_carrier_designator: copy_opt(&self.marketing_carrier_designator),
            frequent_flyer_airline_designator: copy_opt(&self.frequent_flyer_airline_designator),
            frequent_flyer_number: copy_opt(&self.frequent_flyer_number),
            id_ad_indicator: copy_opt(&self.id_ad_indicator),
            free_baggage_allowance: copy_opt(&self.free_baggage_allowance),
            fast_track: copy_opt(&self.fast_track),
            airline_individual_use: copy_opt(&self.airline_individual_use),
        }
    }
}

impl SecurityBlock {
    /// Copies out the field that `id` names, if it is present.
    pub fn field(&self, id: BcbpSecurityFieldId) -> (r: Option<Vec<u8>>)
        ensures
            opt_bytes(r) == security_field(*self, id),
    {
        match id {
            BcbpSecurityFieldId::Unknown => None,
            BcbpSecurityFieldId::TypeOfSecurityData => copy_opt(&self.type_of_security_data),
            BcbpSecurityFieldId::SecurityData => copy_opt(&self.security_data),
        }
    }

    /// All fields, in identifier order.
    pub fn fields(&self) -> (r: Vec<Option<Vec<u8>>>)
        ensures
            field_list(r@) == self@,
    {
        let r = vec![
            self.field(BcbpSecurityFieldId::TypeOfSecurityData),
            self.field(BcbpSecurityFieldId::SecurityData),
        ];
        assert(field_list(r@) =~= self@);
        r
    }

    /// An independent copy of this block.
    pub fn copy(&self) -> (r: SecurityBlock)
        ensures
            r@ == self@,
    {
        SecurityBlock {
            type_of_security_data: copy_opt(&self.type_of_security_data),
            security_data: copy_opt(&self.security_data),
        }
    }
}

impl BoardingPass {
    /// Copies out the field that `id` names, if it is present.
    pub fn field(&self, id: BcbpFieldId) -> (r: Option<Vec<u8>>)
        ensures
            opt_bytes(r) == root_field(*self, id),
    {
        match id {
            BcbpFieldId::Unknown => None,
            BcbpFieldId::PassengerName => Some(copy_bytes(&self.passenger_name)),
            BcbpFieldId::ElectronicTicketIndicator => Some(
                copy_bytes(&self.electronic_ticket_indicator),
            ),
            BcbpFieldId::VersionNumber => copy_opt(&self.version_number),
            BcbpFieldId::PassengerDescription => copy_opt(&self.passenger_description),
            BcbpFieldId::SourceOfCheckIn => copy_opt(&self.source_of_check_in),
            BcbpFieldId::SourceOfBoardingPassIssuance => copy_opt(
                &self.source_of_boarding_pass_issuance,
            ),
            BcbpFieldId::DateOfIssueOfBoardingPass => copy_opt(
                &self.date_of_issue_of_boarding_pass,
            ),
            BcbpFieldId::DocumentType => copy_opt(&self.document_type),
            BcbpFieldId::AirlineDesignatorOfBoardingPassIssuer => copy_opt(
                &self.airline_designator_of_boarding_pass_issuer,
            ),
            BcbpFieldId::BaggageTagLicensePlateNumbers => copy_opt(
                &self.baggage_tag_license_plate_numbers,
            ),
            BcbpFieldId::FirstNonConsecutiveBaggageTagLicensePlateNumbers => copy_opt(
                &self.first_non_consecutive_baggage_tag_license_plate_numbers,
            ),
            BcbpFieldId::SecondNonConsecutiveBaggageTagLicensePlateNumbers => copy_opt(
                &self.second_non_consecutive_baggage_tag_license_plate_numbers,
            ),
        }
    }

    /// All document-level fields, in identifier order.
    pub fn fields(&self) -> (r: Vec<Option<Vec<u8>>>)
        ensures
            field_list(r@) == self@.root,
    {
        let r = vec![
            self.field(BcbpFieldId::PassengerName),
            self.field(BcbpFieldId::ElectronicTicketIndicator),
            self.field(BcbpFieldId::VersionNumber),
            self.field(BcbpFieldId::PassengerDescription),
            self.field(BcbpFieldId::SourceOfCheckIn),
            self.field(BcbpFieldId::SourceOfBoardingPassIssuance),
            self.field(BcbpFieldId::DateOfIssueOfBoardingPass),
            self.field(BcbpFieldId::DocumentType),
            self.field(BcbpFieldId::AirlineDesignatorOfBoardingPassIssuer),
            self.field(BcbpFieldId::BaggageTagLicensePlateNumbers),
            self.field(BcbpFieldId::FirstNonConsecutiveBaggageTagLicensePlateNumbers),
            self.field(BcbpFieldId::SecondNonConsecutiveBaggageTagLicensePlateNumbers),
        ];
        assert(field_list(r@) =~= self@.root);
        r
    }

    /// An independent copy of this boarding pass.
    pub fn copy(&self) -> (r: BoardingPass)
        ensures
            r@ == self@,
    {
        let mut legs: Vec<FlightLeg> = Vec::new();
        let mut i: usize = 0;
        while i < self.legs.len()
            invariant
                0 <= i <= self.legs@.len(),
                legs_view(legs@) == legs_view(self.legs@.subrange(0, i as int)),
            decreases self.legs@.len() - i,
        {
            let leg = self.legs[i].copy();
            let ghost prev = legs@;
            legs.push(leg);
            assert(legs_view(legs@) =~= legs_view(prev).push(self.legs@[i as int]@));
            assert(self.legs@.subrange(0, i + 1) == self.legs@.subrange(0, i as int).push(
                self.legs@[i as int],
            ));
            assert(legs_view(self.legs@.subrange(0, i + 1)) =~= legs_view(
                self.legs@.subrange(0, i as int),
            ).push(self.legs@[i as int]@));
            i = i + 1;
        }
        assert(self.legs@.subrange(0, self.legs@.len() as int) == self.legs@);
        let r = BoardingPass {
            passenger_name: copy_bytes(&self.passenger_name),
            electronic_ticket_indicator: copy_bytes(&self.electronic_ticket_indicator),
            version_number: copy_opt(&self.version_number),
            passenger_description: copy_opt(&self.passenger_description),
            source_of_check_in: copy_opt(&self.source_of_check_in),
            source_of_boarding_pass_issuance: copy_opt(&self.source_of_boarding_pass_issuance),
            date_of_issue_of_boarding_pass: copy_opt(&self.date_of_issue_of_boarding_pass),
            document_type: copy_opt(&self.document_type),
            airline_designator_of_boarding_pass_issuer: copy_opt(
                &self.airline_designator_of_boarding_pass_issuer,
            ),
            baggage_tag_license_plate_numbers: copy_opt(&self.baggage_tag_license_plate_numbers),
            first_non_consecutive_baggage_tag_license_plate_numbers: copy_opt(
                &self.first_non_consecutive_baggage_tag_license_plate_numbers,
            ),
            second_non_consecutive_baggage_tag_license_plate_numbers: copy_opt(
                &self.second_non_consecutive_baggage_tag_license_plate_numbers,
            ),
            security: self.security.copy(),
            legs,
        };
        assert(r@.root =~= self@.root);
        r
    }
}

/// Lists of fields, as a mathematical value.
pub open spec fn groups_view(g: Seq<Vec<Option<Vec<u8>>>>) -> Seq<Seq<Option<Seq<u8>>>> {
    g.map_values(|v: Vec<Option<Vec<u8>>>| field_list(v@))
}

/// The whole content of a boarding pass as one sequence of field lists: the document-level
/// fields, then the security fields, then one list per leg in order.
pub open spec fn content_groups(v: PassView) -> Seq<Seq<Option<Seq<u8>>>> {
    seq![v.root, v.security] + v.legs
}

impl BoardingPass {
    /// Whether two boarding passes hold the same values in every field, legs in the same order.
    pub fn same_content(&self, o: &BoardingPass) -> (r: bool)
        ensures
            r == (self@ == o@),
    {
        let a = self.fields();
        let b = o.fields();
        if !fields_equal(&a, &b) {
            return false;
        }
        let sa = self.security.fields();
        let sb = o.security.fields();
        if !fields_equal(&sa, &sb) {
            return false;
        }
        if self.legs.len() != o.legs.len() {
            assert(self@.legs.len() != o@.legs.len());
            return false;
        }
        let mut i: usize = 0;
        while i < self.legs.len()
            invariant
                self.legs@.len() == o.legs@.len(),
                0 <= i <= self.legs@.len(),
                forall|k: int| 0 <= k < i ==> #[trigger] self@.legs[k] == o@.legs[k],
            decreases self.legs@.len() - i,
        {
            let la = self.legs[i].fields();
            let lb = o.legs[i].fields();
            if !fields_equal(&la, &lb) {
                assert(self@.legs[i as int] != o@.legs[i as int]);
                return false;
            }
            i = i + 1;
        }
        assert(self@.legs =~= o@.legs);
        true
    }

    /// The content of this boarding pass as field lists, in the order of `content_groups`.
    pub fn groups(&self) -> (r: Vec<Vec<Option<Vec<u8>>>>)
        ensures
            groups_view(r@) == content_groups(self@),
    {
        let mut r: Vec<Vec<Option<Vec<u8>>>> = Vec::new();
        r.push(self.fields());
        r.push(self.security.fields());
        let mut i: usize = 0;
        assert(groups_view(r@) =~= seq![self@.root, self@.security]);
        assert(legs_view(self.legs@.subrange(0, 0)) =~= Seq::empty());
        while i < self.legs.len()
            invariant
                0 <= i <= self.legs@.len(),
                groups_view(r@) == seq![self@.root, self@.security] + legs_view(
                    self.legs@.subrange(0, i as int),
                ),
            decreases self.legs@.len() - i,
        {
            let ghost prev = r@;
            r.push(self.legs[i].fields());
            assert(groups_view(r@) =~= groups_view(prev).push(self.legs@[i as int]@));
            assert(self.legs@.subrange(0, i + 1) == self.legs@.subrange(0, i as int).push(
                self.legs@[i as int],
            ));
            assert(legs_view(self.legs@.subrange(0, i + 1)) =~= legs_view(
                self.legs@.subrange(0, i as int),
            ).push(self.legs@[i as int]@));
            i = i + 1;
        }
        assert(self.legs@.subrange(0, self.legs@.len() as int) == self.legs@);
        r
    }
}

} // verus!
