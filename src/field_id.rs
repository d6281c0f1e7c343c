use vstd::prelude::*;

verus! {

/// Identifies a field at the root level of a boarding pass.
#[derive(Copy, Clone, PartialEq, Eq, Structural, PartialOrd, Ord, Hash, Debug)]
pub enum BcbpFieldId {
    /// Never names a field: a read of it yields no value.
    Unknown,
    /// The name of the passenger, required, 20 bytes.
    PassengerName,
    /// Electronic ticket indicator, required, 1 byte.
    ElectronicTicketIndicator,
    /// Version number, optional, 1 byte.
    VersionNumber,
    /// Passenger description, optional, 1 byte.
    PassengerDescription,
    /// Source of check-in, optional, 1 byte.
    SourceOfCheckIn,
    /// Source of boarding pass issuance, optional, 1 byte.
    SourceOfBoardingPassIssuance,
    /// Date of issue of boarding pass, optional, 4 bytes.
    DateOfIssueOfBoardingPass,
    /// Document type, optional, 1 byte.
    DocumentType,
    /// Airline designator of boarding pass issuer, optional, 3 bytes.
    AirlineDesignatorOfBoardingPassIssuer,
    /// Baggage tag license plate numbers, optional, 13 bytes.
    BaggageTagLicensePlateNumbers,
    /// First non-consecutive baggage tag license plate numbers, optional, 13 bytes.
    FirstNonConsecutiveBaggageTagLicensePlateNumbers,
    /// Second non-consecutive baggage tag license plate numbers, optional, 13 bytes.
    SecondNonConsecutiveBaggageTagLicensePlateNumbers,
}

/// Identifies a field within the security data section of a boarding pass.
#[derive(Copy, Clone, PartialEq, Eq, Structural, PartialOrd, Ord, Hash, Debug)]
pub enum BcbpSecurityFieldId {
    /// Never names a field: a read of it yields no value.
    Unknown,
    /// Type of the security data, optional, 1 byte.
    TypeOfSecurityData,
    /// The security data itself, optional, up to 255 bytes.
    SecurityData,
}

/// Identifies a field associated with a specific leg of a boarding pass.
#[derive(Copy, Clone, PartialEq, Eq, Structural, PartialOrd, Ord, Hash, Debug)]
pub enum BcbpFlightLegFieldId {
    /// Never names a field: a read of it yields no value.
    Unknown,
    /// Operating carrier PNR code, required, 7 bytes.
    OperatingCarrierPNRCode,
    /// From city airport code, required, 3 bytes.
    FromCityAirportCode,
    /// To city airport code, required, 3 bytes.
    ToCityAirportCode,
    /// Operating carrier designator, required, 3 bytes.
    OperatingCarrierDesignator,
    /// Flight number, required, 5 bytes.
    FlightNumber,
    /// Date of flight, required, 3 bytes.
    DateOfFlight,
    /// Compartment code, required, 1 byte.
    CompartmentCode,
    /// Seat number, required, 4 bytes.
    SeatNumber,
    /// Check-in sequence number, required, 5 bytes.
    CheckInSequenceNumber,
    /// Passenger status, required, 1 byte.
    PassengerStatus,
    /// Airline numeric code, optional, 3 bytes.
    AirlineNumericCode,
    /// Document form serial number, optional, 10 bytes.
    DocumentFormSerialNumber,
    /// Selectee indicator, optional, 1 byte.
    SelecteeIndicator,
    /// International document verification, optional, 1 byte.
    InternationalDocumentVerification,
    /// Marketing carrier designator, optional, 3 bytes.
    MarketingCarrierDesignator,
    /// Frequent flyer airline designator, optional, 3 bytes.
    FrequentFlyerAirlineDesignator,
    /// Frequent flyer number, optional, 16 bytes.
    FrequentFlyerNumber,
    /// ID/AD indicator, optional, 1 byte.
    IdAdIndicator,
    /// Free baggage allowance, optional, 3 bytes.
    FreeBaggageAllowance,
    /// Fast track, optional, 1 byte.
    FastTrack,
    /// Airline individual use, optional, any length.
    AirlineIndividualUse,
}

impl BcbpFieldId {
    /// The stable integer code of this identifier: its position in the declaration, from 0.
    pub open spec fn code(self) -> int {
        match self {
            BcbpFieldId::Unknown => 0,
            BcbpFieldId::PassengerName => 1,
            BcbpFieldId::ElectronicTicketIndicator => 2,
            BcbpFieldId::VersionNumber => 3,
            BcbpFieldId::PassengerDescription => 4,
            BcbpFieldId::SourceOfCheckIn => 5,
            BcbpFieldId::SourceOfBoardingPassIssuance => 6,
            BcbpFieldId::DateOfIssueOfBoardingPass => 7,
            BcbpFieldId::DocumentType => 8,
            BcbpFieldId::AirlineDesignatorOfBoardingPassIssuer => 9,
            BcbpFieldId::BaggageTagLicensePlateNumbers => 10,
            BcbpFieldId::FirstNonConsecutiveBaggageTagLicensePlateNumbers => 11,
            BcbpFieldId::SecondNonConsecutiveBaggageTagLicensePlateNumbers => 12,
        }
    }

    /// The identifier with the given code; any code outside 0 to 12 stands for `Unknown`.
    pub fn from_code(code: i32) -> (r: BcbpFieldId)
        ensures
            0 <= code <= 12 ==> r.code() == code,
            !(0 <= code <= 12) ==> r == BcbpFieldId::Unknown,
    {
        match code {
            1 => BcbpFieldId::PassengerName,
            2 => BcbpFieldId::ElectronicTicketIndicator,
            3 => BcbpFieldId::VersionNumber,
            4 => BcbpFieldId::PassengerDescription,
            5 => BcbpFieldId::SourceOfCheckIn,
            6 => BcbpFieldId::SourceOfBoardingPassIssuance,
            7 => BcbpFieldId::DateOfIssueOfBoardingPass,
            8 => BcbpFieldId::DocumentType,
            9 => BcbpFieldId::AirlineDesignatorOfBoardingPassIssuer,
            10 => BcbpFieldId::BaggageTagLicensePlateNumbers,
            11 => BcbpFieldId::FirstNonConsecutiveBaggageTagLicensePlateNumbers,
            12 => BcbpFieldId::SecondNonConsecutiveBaggageTagLicensePlateNumbers,
            _ => BcbpFieldId::Unknown,
        }
    }
}

impl BcbpSecurityFieldId {
    /// The stable integer code of this identifier: its position in the declaration, from 0.
    pub open spec fn code(self) -> int {
        match self {
            BcbpSecurityFieldId::Unknown => 0,
            BcbpSecurityFieldId::TypeOfSecurityData => 1,
            BcbpSecurityFieldId::SecurityData => 2,
        }
    }

    /// The identifier with the given code; any code outside 0 to 2 stands for `Unknown`.
    pub fn from_code(code: i32) -> (r: BcbpSecurityFieldId)
        ensures
            0 <= code <= 2 ==> r.code() == code,
            !(0 <= code <= 2) ==> r == BcbpSecurityFieldId::Unknown,
    {
        match code {
            1 => BcbpSecurityFieldId::TypeOfSecurityData,
            2 => BcbpSecurityFieldId::SecurityData,
            _ => BcbpSecurityFieldId::Unknown,
        }
    }
}

impl BcbpFlightLegFieldId {
    /// The stable integer code of this identifier: its position in the declaration, from 0.
    pub open spec fn code(self) -> int {
        match self {
            BcbpFlightLegFieldId::Unknown => 0,
            BcbpFlightLegFieldId::OperatingCarrierPNRCode => 1,
            BcbpFlightLegFieldId::FromCityAirportCode => 2,
            BcbpFlightLegFieldId::ToCityAirportCode => 3,
            BcbpFlightLegFieldId::OperatingCarrierDesignator => 4,
            BcbpFlightLegFieldId::FlightNumber => 5,
            BcbpFlightLegFieldId::DateOfFlight => 6,
            BcbpFlightLegFieldId::CompartmentCode => 7,
            BcbpFlightLegFieldId::SeatNumber => 8,
            BcbpFlightLegFieldId::CheckInSequenceNumber => 9,
            BcbpFlightLegFieldId::PassengerStatus => 10,
            BcbpFlightLegFieldId::AirlineNumericCode => 11,
            BcbpFlightLegFieldId::DocumentFormSerialNumber => 12,
            BcbpFlightLegFieldId::SelecteeIndicator => 13,
            BcbpFlightLegFieldId::InternationalDocumentVerification => 14,
            BcbpFlightLegFieldId::MarketingCarrierDesignator => 15,
            BcbpFlightLegFieldId::FrequentFlyerAirlineDesignator => 16,
            BcbpFlightLegFieldId::FrequentFlyerNumber => 17,
            BcbpFlightLegFieldId::IdAdIndicator => 18,
            BcbpFlightLegFieldId::FreeBaggageAllowance => 19,
            BcbpFlightLegFieldId::FastTrack => 20,
            BcbpFlightLegFieldId::AirlineIndividualUse => 21,
        }
    }

    /// The identifier with the given code; any code outside 0 to 21 stands for `Unknown`.
    pub fn from_code(code: i32) -> (r: BcbpFlightLegFieldId)
        ensures
            0 <= code <= 21 ==> r.code() == code,
            !(0 <= code <= 21) ==> r == BcbpFlightLegFieldId::Unknown,
    {
        match code {
            1 => BcbpFlightLegFieldId::OperatingCarrierPNRCode,
            2 => BcbpFlightLegFieldId::FromCityAirportCode,
            3 => BcbpFlightLegFieldId::ToCityAirportCode,
            4 => BcbpFlightLegFieldId::OperatingCarrierDesignator,
            5 => BcbpFlightLegFieldId::FlightNumber,
            6 => BcbpFlightLegFieldId::DateOfFlight,
            7 => BcbpFlightLegFieldId::CompartmentCode,
            8 => BcbpFlightLegFieldId::SeatNumber,
            9 => BcbpFlightLegFieldId::CheckInSequenceNumber,
            10 => BcbpFlightLegFieldId::PassengerStatus,
            11 => BcbpFlightLegFieldId::AirlineNumericCode,
            12 => BcbpFlightLegFieldId::DocumentFormSerialNumber,
            13 => BcbpFlightLegFieldId::SelecteeIndicator,
            14 => BcbpFlightLegFieldId::InternationalDocumentVerification,
            15 => BcbpFlightLegFieldId::MarketingCarrierDesignator,
            16 => BcbpFlightLegFieldId::FrequentFlyerAirlineDesignator,
            17 => BcbpFlightLegFieldId::FrequentFlyerNumber,
            18 => BcbpFlightLegFieldId::IdAdIndicator,
            19 => BcbpFlightLegFieldId::FreeBaggageAllowance,
            20 => BcbpFlightLegFieldId::FastTrack,
            21 => BcbpFlightLegFieldId::AirlineIndividualUse,
            _ => BcbpFlightLegFieldId::Unknown,
        }
    }
}
} // verus!
