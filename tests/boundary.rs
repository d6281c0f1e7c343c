use bcbp_ffi::{
    BcbpCopyDebugDesc, BcbpCopyField, BcbpCopyFlightLegField, BcbpCopySecurityField,
    BcbpCreateCopy, BcbpCreateWithCString, BcbpDestroy, BcbpDestroyString, BcbpFieldId,
    BcbpFlightLegFieldId, BcbpGetNumberOfLegs, BcbpHash, BcbpIsEqual, BcbpSecurityFieldId,
    BoardingPass,
};

const MINIMAL: &str = "M1DOE/JOHN            EABC123 YULFRAAC 0834 326J001A0025 100";

const WITH_SECURITY: &str = "M1DESMARAIS/LUC       EABC123 YULFRAAC 0834 326J001A0025 100^164GIWVC5EH7JNT684FVNJ91W2QA4DVN5J8K4F0L0GEQ3DF5TGBN8709HKT5D3DW3GBHFCVHMY7J5T6HFR41W2QA4DVN5J8K4F0L0GE";

const TWO_LEGS: &str = "M2DESMARAIS/LUC       EABC123 YULFRAAC 0834 226F001A0025 14D>6181WW6225BAC 00141234560032A0141234567890 1AC AC 1234567890123    20KYLX58ZDEF456 FRAGVALH 3664 227C012C0002 12E2A0140987654321 1AC AC 1234567890123    2PCNWQ^164GIWVC5EH7JNT684FVNJ91W2QA4DVN5J8K4F0L0GEQ3DF5TGBN8709HKT5D3DW3GBHFCVHMY7J5T6HFR41W2QA4DVN5J8K4F0L0GE";

fn create(text: &str) -> Box<BoardingPass> {
    BcbpCreateWithCString(Some(text.as_bytes())).expect("the example parses")
}

fn root(p: &BoardingPass, id: BcbpFieldId) -> (bool, Option<Vec<u8>>, usize) {
    let mut out: Option<Vec<u8>> = Some(vec![9]);
    let mut len: usize = 99;
    let ok = BcbpCopyField(Some(p), id, Some(&mut out), Some(&mut len));
    (ok, out, len)
}

fn security(p: &BoardingPass, id: BcbpSecurityFieldId) -> (bool, Option<Vec<u8>>, usize) {
    let mut out: Option<Vec<u8>> = Some(vec![9]);
    let mut len: usize = 99;
    let ok = BcbpCopySecurityField(Some(p), id, Some(&mut out), Some(&mut len));
    (ok, out, len)
}

fn leg(p: &BoardingPass, index: i32, id: BcbpFlightLegFieldId) -> (bool, Option<Vec<u8>>, usize) {
    let mut out: Option<Vec<u8>> = Some(vec![9]);
    let mut len: usize = 99;
    let ok = BcbpCopyFlightLegField(Some(p), index, id, Some(&mut out), Some(&mut len));
    (ok, out, len)
}

fn present(v: &str) -> (bool, Option<Vec<u8>>, usize) {
    (true, Some(v.as_bytes().to_vec()), v.len())
}

fn absent() -> (bool, Option<Vec<u8>>, usize) {
    (true, None, 0)
}

#[test]
fn minimal_one_leg_record() {
    let h = create(MINIMAL);
    assert_eq!(BcbpGetNumberOfLegs(Some(&h)), 1);
    let name = root(&h, BcbpFieldId::PassengerName);
    assert_eq!(name, present("DOE/JOHN            "));
    assert_eq!(name.2, 20);
    assert_eq!(root(&h, BcbpFieldId::ElectronicTicketIndicator), present("E"));
    assert_eq!(leg(&h, 0, BcbpFlightLegFieldId::OperatingCarrierPNRCode), present("ABC123 "));
    let mut out: Option<Vec<u8>> = Some(vec![1, 2]);
    let mut len: usize = 5;
    let ok = BcbpCopyFlightLegField(
        Some(&h),
        1,
        BcbpFlightLegFieldId::OperatingCarrierPNRCode,
        Some(&mut out),
        Some(&mut len),
    );
    assert!(!ok);
    assert_eq!(out, Some(vec![1, 2]));
    assert_eq!(len, 5);
}

#[test]
fn empty_input_is_absent() {
    assert!(BcbpCreateWithCString(Some(b"")).is_none());
}

#[test]
fn truncated_input_is_absent() {
    assert!(BcbpCreateWithCString(Some(&MINIMAL.as_bytes()[..30])).is_none());
    assert!(BcbpCreateWithCString(Some(&MINIMAL.as_bytes()[..MINIMAL.len() - 1])).is_none());
}

#[test]
fn absent_or_invalid_input_is_absent() {
    assert!(BcbpCreateWithCString(None).is_none());
    let mut bytes = MINIMAL.as_bytes().to_vec();
    bytes[3] = 0xff;
    assert!(BcbpCreateWithCString(Some(&bytes)).is_none());
    let other_format = MINIMAL.replacen('M', "X", 1);
    assert!(BcbpCreateWithCString(Some(other_format.as_bytes())).is_none());
    let trailing = format!("{}ZZ", MINIMAL);
    assert!(BcbpCreateWithCString(Some(trailing.as_bytes())).is_none());
}

#[test]
fn security_fields_absent_without_security_block() {
    let h = create(MINIMAL);
    assert_eq!(security(&h, BcbpSecurityFieldId::TypeOfSecurityData), absent());
    assert_eq!(security(&h, BcbpSecurityFieldId::SecurityData), absent());
    assert_eq!(security(&h, BcbpSecurityFieldId::Unknown), absent());
}

#[test]
fn security_fields_present_with_security_block() {
    let h = create(WITH_SECURITY);
    assert_eq!(security(&h, BcbpSecurityFieldId::TypeOfSecurityData), present("1"));
    let data = "GIWVC5EH7JNT684FVNJ91W2QA4DVN5J8K4F0L0GEQ3DF5TGBN8709HKT5D3DW3GBHFCVHMY7J5T6HFR41W2QA4DVN5J8K4F0L0GE";
    assert_eq!(security(&h, BcbpSecurityFieldId::SecurityData), present(data));
    assert_eq!(security(&h, BcbpSecurityFieldId::Unknown), absent());
}

#[test]
fn required_fields_round_trip_byte_for_byte() {
    let h = create(WITH_SECURITY);
    let text = WITH_SECURITY;
    assert_eq!(root(&h, BcbpFieldId::PassengerName), present(&text[2..22]));
    assert_eq!(root(&h, BcbpFieldId::ElectronicTicketIndicator), present(&text[22..23]));
    let required = [
        (BcbpFlightLegFieldId::OperatingCarrierPNRCode, 23, 30),
        (BcbpFlightLegFieldId::FromCityAirportCode, 30, 33),
        (BcbpFlightLegFieldId::ToCityAirportCode, 33, 36),
        (BcbpFlightLegFieldId::OperatingCarrierDesignator, 36, 39),
        (BcbpFlightLegFieldId::FlightNumber, 39, 44),
        (BcbpFlightLegFieldId::DateOfFlight, 44, 47),
        (BcbpFlightLegFieldId::CompartmentCode, 47, 48),
        (BcbpFlightLegFieldId::SeatNumber, 48, 52),
        (BcbpFlightLegFieldId::CheckInSequenceNumber, 52, 57),
        (BcbpFlightLegFieldId::PassengerStatus, 57, 58),
    ];
    for (id, start, end) in required.iter() {
        assert_eq!(leg(&h, 0, *id), present(&text[*start..*end]));
    }
}

#[test]
fn optional_root_fields_absent_in_minimal_record() {
    let h = create(MINIMAL);
    let optional = [
        BcbpFieldId::VersionNumber,
        BcbpFieldId::PassengerDescription,
        BcbpFieldId::SourceOfCheckIn,
        BcbpFieldId::SourceOfBoardingPassIssuance,
        BcbpFieldId::DateOfIssueOfBoardingPass,
        BcbpFieldId::DocumentType,
        BcbpFieldId::AirlineDesignatorOfBoardingPassIssuer,
        BcbpFieldId::BaggageTagLicensePlateNumbers,
        BcbpFieldId::FirstNonConsecutiveBaggageTagLicensePlateNumbers,
        BcbpFieldId::SecondNonConsecutiveBaggageTagLicensePlateNumbers,
        BcbpFieldId::Unknown,
    ];
    for id in optional.iter() {
        assert_eq!(root(&h, *id), absent());
    }
}

#[test]
fn optional_fields_of_a_two_leg_record() {
    let h = create(TWO_LEGS);
    assert_eq!(BcbpGetNumberOfLegs(Some(&h)), 2);
    assert_eq!(root(&h, BcbpFieldId::VersionNumber), present("6"));
    assert_eq!(root(&h, BcbpFieldId::PassengerDescription), present("1"));
    assert_eq!(root(&h, BcbpFieldId::SourceOfCheckIn), present("W"));
    assert_eq!(root(&h, BcbpFieldId::SourceOfBoardingPassIssuance), present("W"));
    assert_eq!(root(&h, BcbpFieldId::DateOfIssueOfBoardingPass), present("6225"));
    assert_eq!(root(&h, BcbpFieldId::DocumentType), present("B"));
    assert_eq!(root(&h, BcbpFieldId::AirlineDesignatorOfBoardingPassIssuer), present("AC "));
    assert_eq!(root(&h, BcbpFieldId::BaggageTagLicensePlateNumbers), present("0014123456003"));
    assert_eq!(root(&h, BcbpFieldId::FirstNonConsecutiveBaggageTagLicensePlateNumbers), absent());
    assert_eq!(leg(&h, 0, BcbpFlightLegFieldId::AirlineNumericCode), present("014"));
    assert_eq!(leg(&h, 0, BcbpFlightLegFieldId::DocumentFormSerialNumber), present("1234567890"));
    assert_eq!(leg(&h, 0, BcbpFlightLegFieldId::SelecteeIndicator), present(" "));
    assert_eq!(leg(&h, 0, BcbpFlightLegFieldId::InternationalDocumentVerification), present("1"));
    assert_eq!(leg(&h, 0, BcbpFlightLegFieldId::MarketingCarrierDesignator), present("AC "));
    assert_eq!(leg(&h, 0, BcbpFlightLegFieldId::FrequentFlyerNumber), present("1234567890123   "));
    assert_eq!(leg(&h, 0, BcbpFlightLegFieldId::FreeBaggageAllowance), present("20K"));
    assert_eq!(leg(&h, 0, BcbpFlightLegFieldId::FastTrack), present("Y"));
    assert_eq!(leg(&h, 1, BcbpFlightLegFieldId::OperatingCarrierPNRCode), present("DEF456 "));
    assert_eq!(leg(&h, 1, BcbpFlightLegFieldId::FromCityAirportCode), present("FRA"));
    assert_eq!(leg(&h, 1, BcbpFlightLegFieldId::ToCityAirportCode), present("GVA"));
    assert_eq!(leg(&h, 1, BcbpFlightLegFieldId::Unknown), absent());
}

#[test]
fn leg_reads_agree_with_leg_count() {
    let h = create(TWO_LEGS);
    let count = BcbpGetNumberOfLegs(Some(&h));
    for index in 0..count {
        assert!(leg(&h, index, BcbpFlightLegFieldId::SeatNumber).0);
    }
    assert!(!leg(&h, count, BcbpFlightLegFieldId::SeatNumber).0);
    assert!(!leg(&h, -1, BcbpFlightLegFieldId::SeatNumber).0);
    assert!(!leg(&h, i32::MIN, BcbpFlightLegFieldId::SeatNumber).0);
    assert_eq!(BcbpGetNumberOfLegs(None), 0);
}

#[test]
fn same_text_twice_gives_equal_records() {
    let a = create(TWO_LEGS);
    let b = create(TWO_LEGS);
    assert!(BcbpIsEqual(Some(&a), Some(&b)));
    assert!(!std::ptr::eq(&*a, &*b));
    assert_eq!(BcbpHash(Some(&a)), BcbpHash(Some(&b)));
}

#[test]
fn equals_itself_and_hash_is_stable() {
    let h = create(TWO_LEGS);
    assert!(BcbpIsEqual(Some(&h), Some(&h)));
    assert_eq!(BcbpHash(Some(&h)), BcbpHash(Some(&h)));
}

#[test]
fn absent_handles_compare() {
    let h = create(MINIMAL);
    assert!(BcbpIsEqual(None, None));
    assert!(!BcbpIsEqual(Some(&h), None));
    assert!(!BcbpIsEqual(None, Some(&h)));
    assert_eq!(BcbpHash(None), 0);
}

#[test]
fn duplicate_is_equal_and_independent() {
    let h = create(TWO_LEGS);
    let h2 = BcbpCreateCopy(Some(&h)).expect("a copy of a present handle");
    assert!(BcbpIsEqual(Some(&h), Some(&h2)));
    assert!(!std::ptr::eq(&*h, &*h2));
    assert_eq!(BcbpHash(Some(&h)), BcbpHash(Some(&h2)));
    assert!(BcbpCreateCopy(None).is_none());
    BcbpDestroy(Some(h));
    assert_eq!(leg(&h2, 1, BcbpFlightLegFieldId::SeatNumber), present("012C"));
    BcbpDestroy(Some(h2));
    BcbpDestroy(None);
}

#[test]
fn different_records_differ() {
    let a = create(MINIMAL);
    let b = create(WITH_SECURITY);
    assert!(!BcbpIsEqual(Some(&a), Some(&b)));
    assert_ne!(BcbpHash(Some(&a)), BcbpHash(Some(&b)));
    let c = create(TWO_LEGS);
    assert!(!BcbpIsEqual(Some(&b), Some(&c)));
}

#[test]
fn debug_description_present_only_for_present_handle() {
    let h = create(MINIMAL);
    let text = BcbpCopyDebugDesc(Some(&h)).expect("a description");
    let expected = [
        "bcbp \"DOE/JOHN            \" \"E\" - - - - - - - - - -\n",
        "security - -\n",
        "leg \"ABC123 \" \"YUL\" \"FRA\" \"AC \" \"0834 \" \"326\" \"J\" \"001A\" \"0025 \" \"1\"",
        " - - - - - - - - - - -\n",
    ]
    .join("");
    assert_eq!(String::from_utf8(text.clone()).expect("readable text"), expected);
    BcbpDestroyString(Some(text));
    assert!(BcbpCopyDebugDesc(None).is_none());
    BcbpDestroyString(None);
}

#[test]
fn debug_description_lists_every_leg() {
    let h = create(TWO_LEGS);
    let text = String::from_utf8(BcbpCopyDebugDesc(Some(&h)).expect("a description"))
        .expect("readable text");
    let lines: Vec<&str> = text.lines().collect();
    assert_eq!(lines.len(), 4);
    assert!(lines[0].starts_with("bcbp \"DESMARAIS/LUC       \" \"E\" \"6\""));
    assert!(lines[1].starts_with("security \"1\" \"GIWVC5EH7JNT"));
    assert!(lines[2].starts_with("leg \"ABC123 \" \"YUL\" \"FRA\""));
    assert!(lines[3].starts_with("leg \"DEF456 \" \"FRA\" \"GVA\""));
}

#[test]
fn reads_fail_without_handle_or_result() {
    let h = create(MINIMAL);
    let mut len: usize = 42;
    assert!(!BcbpCopyField(None, BcbpFieldId::PassengerName, None, Some(&mut len)));
    assert!(!BcbpCopyField(Some(&h), BcbpFieldId::PassengerName, None, Some(&mut len)));
    assert!(!BcbpCopySecurityField(Some(&h), BcbpSecurityFieldId::SecurityData, None, None));
    assert_eq!(len, 42);
    let mut out: Option<Vec<u8>> = Some(vec![7]);
    assert!(!BcbpCopyField(None, BcbpFieldId::PassengerName, Some(&mut out), Some(&mut len)));
    assert!(!BcbpCopySecurityField(None, BcbpSecurityFieldId::SecurityData, Some(&mut out), None));
    assert!(!BcbpCopyFlightLegField(None, 0, BcbpFlightLegFieldId::SeatNumber, Some(&mut out), None));
    assert_eq!(out, Some(vec![7]));
    assert_eq!(len, 42);
}

#[test]
fn length_output_is_optional() {
    let h = create(MINIMAL);
    let mut out: Option<Vec<u8>> = None;
    assert!(BcbpCopyField(Some(&h), BcbpFieldId::PassengerName, Some(&mut out), None));
    assert_eq!(out, Some(b"DOE/JOHN            ".to_vec()));
    assert!(BcbpCopyFlightLegField(Some(&h), 0, BcbpFlightLegFieldId::SeatNumber, Some(&mut out), None));
    assert_eq!(out, Some(b"001A".to_vec()));
}


#[test]
fn field_codes_map_to_identifiers() {
    assert_eq!(BcbpFieldId::from_code(0), BcbpFieldId::Unknown);
    assert_eq!(BcbpFieldId::from_code(1), BcbpFieldId::PassengerName);
    assert_eq!(
        BcbpFieldId::from_code(12),
        BcbpFieldId::SecondNonConsecutiveBaggageTagLicensePlateNumbers
    );
    assert_eq!(BcbpFieldId::from_code(13), BcbpFieldId::Unknown);
    assert_eq!(BcbpFieldId::from_code(-1), BcbpFieldId::Unknown);
    assert_eq!(BcbpSecurityFieldId::from_code(2), BcbpSecurityFieldId::SecurityData);
    assert_eq!(BcbpSecurityFieldId::from_code(3), BcbpSecurityFieldId::Unknown);
    assert_eq!(BcbpFlightLegFieldId::from_code(1), BcbpFlightLegFieldId::OperatingCarrierPNRCode);
    assert_eq!(BcbpFlightLegFieldId::from_code(21), BcbpFlightLegFieldId::AirlineIndividualUse);
    assert_eq!(BcbpFlightLegFieldId::from_code(22), BcbpFlightLegFieldId::Unknown);
    assert_eq!(BcbpFlightLegFieldId::from_code(i32::MIN), BcbpFlightLegFieldId::Unknown);
}
