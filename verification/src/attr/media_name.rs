use vstd::prelude::*;
use super::ipp_sys_predefined_map::{
    codes_all_named, codes_of, coded_pairs, coded_table, lemma_coded_table_named,
    lemma_name_keyword_round_trip, lemma_supported_key_found, name_of_code, opt_keyword_view,
    named_table_view, KeywordMap, PredefinedCode,
};
use super::pair_relation::{
    is_first_position, left_of, lefts_of_rights, lemma_pairs_from_one_to_one, pairs_from, right_of,
};

verus! {

/// A media name of the Windows Print Schema (`psk:` namespace); the
/// variants follow the order in which the print-schema keywords list them.
#[derive(Clone, Copy, Debug, PartialEq, Eq, Hash, Structural)]
pub enum PredefinedMediaName {
    BusinessCard,
    CreditCard,
    ISOA0,
    ISOA1,
    ISOA10,
    ISOA2,
    ISOA3,
    ISOA3Extra,
    ISOA3Rotated,
    ISOA4,
    ISOA4Extra,
    ISOA4Rotated,
    ISOA5,
    ISOA5Extra,
    ISOA5Rotated,
    ISOA6,
    ISOA6Rotated,
    ISOA7,
    ISOA8,
    ISOA9,
    ISOB0,
    ISOB1,
    ISOB10,
    ISOB2,
    ISOB3,
    ISOB4,
    ISOB4Envelope,
    ISOB5Envelope,
    ISOB5Extra,
    ISOB7,
    ISOB8,
    ISOB9,
    ISOC0,
    ISOC1,
    ISOC10,
    ISOC2,
    ISOC3,
    ISOC3Envelope,
    ISOC4,
    ISOC4Envelope,
    ISOC5,
    ISOC5Envelope,
    ISOC6,
    ISOC6C5Envelope,
    ISOC6Envelope,
    ISOC7,
    ISOC8,
    ISOC9,
    ISODLEnvelope,
    ISODLEnvelopeRotated,
    ISOSRA3,
    JISB0,
    JISB1,
    JISB10,
    JISB2,
    JISB3,
    JISB4,
    JISB4Rotated,
    JISB5,
    JISB5Rotated,
    JISB6,
    JISB6Rotated,
    JISB7,
    JISB8,
    JISB9,
    Japan2LPhoto,
    JapanChou3Envelope,
    JapanChou3EnvelopeRotated,
    JapanChou4Envelope,
    JapanChou4EnvelopeRotated,
    JapanDoubleHagakiPostcard,
    JapanDoubleHagakiPostcardRotated,
    JapanHagakiPostcard,
    JapanHagakiPostcardRotated,
    JapanKaku2Envelope,
    JapanKaku2EnvelopeRotated,
    JapanKaku3Envelope,
    JapanKaku3EnvelopeRotated,
    JapanLPhoto,
    JapanQuadrupleHagakiPostcard,
    JapanYou1Envelope,
    JapanYou2Envelope,
    JapanYou3Envelope,
    JapanYou4Envelope,
    JapanYou4EnvelopeRotated,
    JapanYou6Envelope,
    JapanYou6EnvelopeRotated,
    NorthAmerica10x11,
    NorthAmerica10x12,
    NorthAmerica10x14,
    NorthAmerica11x17,
    NorthAmerica14x17,
    NorthAmerica4x6,
    NorthAmerica4x8,
    NorthAmerica5x7,
    NorthAmerica8x10,
    NorthAmerica9x11,
    NorthAmericaArchitectureASheet,
    NorthAmericaArchitectureBSheet,
    NorthAmericaArchitectureCSheet,
    NorthAmericaArchitectureDSheet,
    NorthAmericaArchitectureESheet,
    NorthAmericaCSheet,
    NorthAmericaDSheet,
    NorthAmericaESheet,
    NorthAmericaExecutive,
    NorthAmericaGermanLegalFanfold,
    NorthAmericaGermanStandardFanfold,
    NorthAmericaLegal,
    NorthAmericaLegalExtra,
    NorthAmericaLetter,
    NorthAmericaLetterExtra,
    NorthAmericaLetterPlus,
    NorthAmericaLetterRotated,
    NorthAmericaMonarchEnvelope,
    NorthAmericaNote,
    NorthAmericaNumber10Envelope,
    NorthAmericaNumber10EnvelopeRotated,
    NorthAmericaNumber11Envelope,
    NorthAmericaNumber12Envelope,
    NorthAmericaNumber14Envelope,
    NorthAmericaNumber9Envelope,
    NorthAmericaPersonalEnvelope,
    NorthAmericaQuarto,
    NorthAmericaStatement,
    NorthAmericaSuperA,
    NorthAmericaSuperB,
    NorthAmericaTabloid,
    NorthAmericaTabloidExtra,
    OtherMetricA3Plus,
    OtherMetricA4Plus,
    OtherMetricFolio,
    OtherMetricInviteEnvelope,
    OtherMetricItalianEnvelope,
    PRC10Envelope,
    PRC10EnvelopeRotated,
    PRC16K,
    PRC16KRotated,
    PRC1Envelope,
    PRC1EnvelopeRotated,
    PRC2Envelope,
    PRC2EnvelopeRotated,
    PRC32K,
    PRC32KBig,
    PRC32KRotated,
    PRC3Envelope,
    PRC3EnvelopeRotated,
    PRC4Envelope,
    PRC4EnvelopeRotated,
    PRC5Envelope,
    PRC5EnvelopeRotated,
    PRC6Envelope,
    PRC6EnvelopeRotated,
    PRC7Envelope,
    PRC7EnvelopeRotated,
    PRC8Envelope,
    PRC8EnvelopeRotated,
    PRC9Envelope,
    PRC9EnvelopeRotated,
    Roll04Inch,
    Roll06Inch,
    Roll08Inch,
    Roll12Inch,
    Roll15Inch,
    Roll18Inch,
    Roll22Inch,
    Roll24Inch,
    Roll30Inch,
    Roll36Inch,
    Roll54Inch,
}

impl PredefinedCode for PredefinedMediaName {
    open spec fn spec_code(self) -> u16 {
        match self {
            PredefinedMediaName::BusinessCard => 0,
            PredefinedMediaName::CreditCard => 1,
            PredefinedMediaName::ISOA0 => 2,
            PredefinedMediaName::ISOA1 => 3,
            PredefinedMediaName::ISOA10 => 4,
            PredefinedMediaName::ISOA2 => 5,
            PredefinedMediaName::ISOA3 => 6,
            PredefinedMediaName::ISOA3Extra => 7,
            PredefinedMediaName::ISOA3Rotated => 8,
            PredefinedMediaName::ISOA4 => 9,
            PredefinedMediaName::ISOA4Extra => 10,
            PredefinedMediaName::ISOA4Rotated => 11,
            PredefinedMediaName::ISOA5 => 12,
            PredefinedMediaName::ISOA5Extra => 13,
            PredefinedMediaName::ISOA5Rotated => 14,
            PredefinedMediaName::ISOA6 => 15,
            PredefinedMediaName::ISOA6Rotated => 16,
            PredefinedMediaName::ISOA7 => 17,
            PredefinedMediaName::ISOA8 => 18,
            PredefinedMediaName::ISOA9 => 19,
            PredefinedMediaName::ISOB0 => 20,
            PredefinedMediaName::ISOB1 => 21,
            PredefinedMediaName::ISOB10 => 22,
            PredefinedMediaName::ISOB2 => 23,
            PredefinedMediaName::ISOB3 => 24,
            PredefinedMediaName::ISOB4 => 25,
            PredefinedMediaName::ISOB4Envelope => 26,
            PredefinedMediaName::ISOB5Envelope => 27,
            PredefinedMediaName::ISOB5Extra => 28,
            PredefinedMediaName::ISOB7 => 29,
            PredefinedMediaName::ISOB8 => 30,
            PredefinedMediaName::ISOB9 => 31,
            PredefinedMediaName::ISOC0 => 32,
            PredefinedMediaName::ISOC1 => 33,
            PredefinedMediaName::ISOC10 => 34,
            PredefinedMediaName::ISOC2 => 35,
            PredefinedMediaName::ISOC3 => 36,
            PredefinedMediaName::ISOC3Envelope => 37,
            PredefinedMediaName::ISOC4 => 38,
            PredefinedMediaName::ISOC4Envelope => 39,
            PredefinedMediaName::ISOC5 => 40,
            PredefinedMediaName::ISOC5Envelope => 41,
            PredefinedMediaName::ISOC6 => 42,
            PredefinedMediaName::ISOC6C5Envelope => 43,
            PredefinedMediaName::ISOC6Envelope => 44,
            PredefinedMediaName::ISOC7 => 45,
            PredefinedMediaName::ISOC8 => 46,
            PredefinedMediaName::ISOC9 => 47,
            PredefinedMediaName::ISODLEnvelope => 48,
            PredefinedMediaName::ISODLEnvelopeRotated => 49,
            PredefinedMediaName::ISOSRA3 => 50,
            PredefinedMediaName::JISB0 => 51,
            PredefinedMediaName::JISB1 => 52,
            PredefinedMediaName::JISB10 => 53,
            PredefinedMediaName::JISB2 => 54,
            PredefinedMediaName::JISB3 => 55,
            PredefinedMediaName::JISB4 => 56,
            PredefinedMediaName::JISB4Rotated => 57,
            PredefinedMediaName::JISB5 => 58,
            PredefinedMediaName::JISB5Rotated => 59,
            PredefinedMediaName::JISB6 => 60,
            PredefinedMediaName::JISB6Rotated => 61,
            PredefinedMediaName::JISB7 => 62,
            PredefinedMediaName::JISB8 => 63,
            PredefinedMediaName::JISB9 => 64,
            PredefinedMediaName::Japan2LPhoto => 65,
            PredefinedMediaName::JapanChou3Envelope => 66,
            PredefinedMediaName::JapanChou3EnvelopeRotated => 67,
            PredefinedMediaName::JapanChou4Envelope => 68,
            PredefinedMediaName::JapanChou4EnvelopeRotated => 69,
            PredefinedMediaName::JapanDoubleHagakiPostcard => 70,
            PredefinedMediaName::JapanDoubleHagakiPostcardRotated => 71,
            PredefinedMediaName::JapanHagakiPostcard => 72,
            PredefinedMediaName::JapanHagakiPostcardRotated => 73,
            PredefinedMediaName::JapanKaku2Envelope => 74,
            PredefinedMediaName::JapanKaku2EnvelopeRotated => 75,
            PredefinedMediaName::JapanKaku3Envelope => 76,
            PredefinedMediaName::JapanKaku3EnvelopeRotated => 77,
            PredefinedMediaName::JapanLPhoto => 78,
            PredefinedMediaName::JapanQuadrupleHagakiPostcard => 79,
            PredefinedMediaName::JapanYou1Envelope => 80,
            PredefinedMediaName::JapanYou2Envelope => 81,
            PredefinedMediaName::JapanYou3Envelope => 82,
            PredefinedMediaName::JapanYou4Envelope => 83,
            PredefinedMediaName::JapanYou4EnvelopeRotated => 84,
            PredefinedMediaName::JapanYou6Envelope => 85,
            PredefinedMediaName::JapanYou6EnvelopeRotated => 86,
            PredefinedMediaName::NorthAmerica10x11 => 87,
            PredefinedMediaName::NorthAmerica10x12 => 88,
            PredefinedMediaName::NorthAmerica10x14 => 89,
            PredefinedMediaName::NorthAmerica11x17 => 90,
            PredefinedMediaName::NorthAmerica14x17 => 91,
            PredefinedMediaName::NorthAmerica4x6 => 92,
            PredefinedMediaName::NorthAmerica4x8 => 93,
            PredefinedMediaName::NorthAmerica5x7 => 94,
            PredefinedMediaName::NorthAmerica8x10 => 95,
            PredefinedMediaName::NorthAmerica9x11 => 96,
            PredefinedMediaName::NorthAmericaArchitectureASheet => 97,
            PredefinedMediaName::NorthAmericaArchitectureBSheet => 98,
            PredefinedMediaName::NorthAmericaArchitectureCSheet => 99,
            PredefinedMediaName::NorthAmericaArchitectureDSheet => 100,
            PredefinedMediaName::NorthAmericaArchitectureESheet => 101,
            PredefinedMediaName::NorthAmericaCSheet => 102,
            PredefinedMediaName::NorthAmericaDSheet => 103,
            PredefinedMediaName::NorthAmericaESheet => 104,
            PredefinedMediaName::NorthAmericaExecutive => 105,
            PredefinedMediaName::NorthAmericaGermanLegalFanfold => 106,
            PredefinedMediaName::NorthAmericaGermanStandardFanfold => 107,
            PredefinedMediaName::NorthAmericaLegal => 108,
            PredefinedMediaName::NorthAmericaLegalExtra => 109,
            PredefinedMediaName::NorthAmericaLetter => 110,
            PredefinedMediaName::NorthAmericaLetterExtra => 111,
            PredefinedMediaName::NorthAmericaLetterPlus => 112,
            PredefinedMediaName::NorthAmericaLetterRotated => 113,
            PredefinedMediaName::NorthAmericaMonarchEnvelope => 114,
            PredefinedMediaName::NorthAmericaNote => 115,
            PredefinedMediaName::NorthAmericaNumber10Envelope => 116,
            PredefinedMediaName::NorthAmericaNumber10EnvelopeRotated => 117,
            PredefinedMediaName::NorthAmericaNumber11Envelope => 118,
            PredefinedMediaName::NorthAmericaNumber12Envelope => 119,
            PredefinedMediaName::NorthAmericaNumber14Envelope => 120,
            PredefinedMediaName::NorthAmericaNumber9Envelope => 121,
            PredefinedMediaName::NorthAmericaPersonalEnvelope => 122,
            PredefinedMediaName::NorthAmericaQuarto => 123,
            PredefinedMediaName::NorthAmericaStatement => 124,
            PredefinedMediaName::NorthAmericaSuperA => 125,
            PredefinedMediaName::NorthAmericaSuperB => 126,
            PredefinedMediaName::NorthAmericaTabloid => 127,
            PredefinedMediaName::NorthAmericaTabloidExtra => 128,
            PredefinedMediaName::OtherMetricA3Plus => 129,
            PredefinedMediaName::OtherMetricA4Plus => 130,
            PredefinedMediaName::OtherMetricFolio => 131,
            PredefinedMediaName::OtherMetricInviteEnvelope => 132,
            PredefinedMediaName::OtherMetricItalianEnvelope => 133,
            PredefinedMediaName::PRC10Envelope => 134,
            PredefinedMediaName::PRC10EnvelopeRotated => 135,
            PredefinedMediaName::PRC16K => 136,
            PredefinedMediaName::PRC16KRotated => 137,
            PredefinedMediaName::PRC1Envelope => 138,
            PredefinedMediaName::PRC1EnvelopeRotated => 139,
            PredefinedMediaName::PRC2Envelope => 140,
            PredefinedMediaName::PRC2EnvelopeRotated => 141,
            PredefinedMediaName::PRC32K => 142,
            PredefinedMediaName::PRC32KBig => 143,
            PredefinedMediaName::PRC32KRotated => 144,
            PredefinedMediaName::PRC3Envelope => 145,
            PredefinedMediaName::PRC3EnvelopeRotated => 146,
            PredefinedMediaName::PRC4Envelope => 147,
            PredefinedMediaName::PRC4EnvelopeRotated => 148,
            PredefinedMediaName::PRC5Envelope => 149,
            PredefinedMediaName::PRC5EnvelopeRotated => 150,
            PredefinedMediaName::PRC6Envelope => 151,
            PredefinedMediaName::PRC6EnvelopeRotated => 152,
            PredefinedMediaName::PRC7Envelope => 153,
            PredefinedMediaName::PRC7EnvelopeRotated => 154,
            PredefinedMediaName::PRC8Envelope => 155,
            PredefinedMediaName::PRC8EnvelopeRotated => 156,
            PredefinedMediaName::PRC9Envelope => 157,
            PredefinedMediaName::PRC9EnvelopeRotated => 158,
            PredefinedMediaName::Roll04Inch => 159,
            PredefinedMediaName::Roll06Inch => 160,
            PredefinedMediaName::Roll08Inch => 161,
            PredefinedMediaName::Roll12Inch => 162,
            PredefinedMediaName::Roll15Inch => 163,
            PredefinedMediaName::Roll18Inch => 164,
            PredefinedMediaName::Roll22Inch => 165,
            PredefinedMediaName::Roll24Inch => 166,
            PredefinedMediaName::Roll30Inch => 167,
            PredefinedMediaName::Roll36Inch => 168,
            PredefinedMediaName::Roll54Inch => 169,
        }
    }

    open spec fn spec_from_code(code: u16) -> Option<Self> {
        match code {
            0 => Some(PredefinedMediaName::BusinessCard),
            1 => Some(PredefinedMediaName::CreditCard),
            2 => Some(PredefinedMediaName::ISOA0),
            3 => Some(PredefinedMediaName::ISOA1),
            4 => Some(PredefinedMediaName::ISOA10),
            5 => Some(PredefinedMediaName::ISOA2),
            6 => Some(PredefinedMediaName::ISOA3),
            7 => Some(PredefinedMediaName::ISOA3Extra),
            8 => Some(PredefinedMediaName::ISOA3Rotated),
            9 => Some(PredefinedMediaName::ISOA4),
            10 => Some(PredefinedMediaName::ISOA4Extra),
            11 => Some(PredefinedMediaName::ISOA4Rotated),
            12 => Some(PredefinedMediaName::ISOA5),
            13 => Some(PredefinedMediaName::ISOA5Extra),
            14 => Some(PredefinedMediaName::ISOA5Rotated),
            15 => Some(PredefinedMediaName::ISOA6),
            16 => Some(PredefinedMediaName::ISOA6Rotated),
            17 => Some(PredefinedMediaName::ISOA7),
            18 => Some(PredefinedMediaName::ISOA8),
            19 => Some(PredefinedMediaName::ISOA9),
            20 => Some(PredefinedMediaName::ISOB0),
            21 => Some(PredefinedMediaName::ISOB1),
            22 => Some(PredefinedMediaName::ISOB10),
            23 => Some(PredefinedMediaName::ISOB2),
            24 => Some(PredefinedMediaName::ISOB3),
            25 => Some(PredefinedMediaName::ISOB4),
            26 => Some(PredefinedMediaName::ISOB4Envelope),
            27 => Some(PredefinedMediaName::ISOB5Envelope),
            28 => Some(PredefinedMediaName::ISOB5Extra),
            29 => Some(PredefinedMediaName::ISOB7),
            30 => Some(PredefinedMediaName::ISOB8),
            31 => Some(PredefinedMediaName::ISOB9),
            32 => Some(PredefinedMediaName::ISOC0),
            33 => Some(PredefinedMediaName::ISOC1),
            34 => Some(PredefinedMediaName::ISOC10),
            35 => Some(PredefinedMediaName::ISOC2),
            36 => Some(PredefinedMediaName::ISOC3),
            37 => Some(PredefinedMediaName::ISOC3Envelope),
            38 => Some(PredefinedMediaName::ISOC4),
            39 => Some(PredefinedMediaName::ISOC4Envelope),
            40 => Some(PredefinedMediaName::ISOC5),
            41 => Some(PredefinedMediaName::ISOC5Envelope),
            42 => Some(PredefinedMediaName::ISOC6),
            43 => Some(PredefinedMediaName::ISOC6C5Envelope),
            44 => Some(PredefinedMediaName::ISOC6Envelope),
            45 => Some(PredefinedMediaName::ISOC7),
            46 => Some(PredefinedMediaName::ISOC8),
            47 => Some(PredefinedMediaName::ISOC9),
            48 => Some(PredefinedMediaName::ISODLEnvelope),
            49 => Some(PredefinedMediaName::ISODLEnvelopeRotated),
            50 => Some(PredefinedMediaName::ISOSRA3),
            51 => Some(PredefinedMediaName::JISB0),
            52 => Some(PredefinedMediaName::JISB1),
            53 => Some(PredefinedMediaName::JISB10),
            54 => Some(PredefinedMediaName::JISB2),
            55 => Some(PredefinedMediaName::JISB3),
            56 => Some(PredefinedMediaName::JISB4),
            57 => Some(PredefinedMediaName::JISB4Rotated),
            58 => Some(PredefinedMediaName::JISB5),
            59 => Some(PredefinedMediaName::JISB5Rotated),
            60 => Some(PredefinedMediaName::JISB6),
            61 => Some(PredefinedMediaName::JISB6Rotated),
            62 => Some(PredefinedMediaName::JISB7),
            63 => Some(PredefinedMediaName::JISB8),
            64 => Some(PredefinedMediaName::JISB9),
            65 => Some(PredefinedMediaName::Japan2LPhoto),
            66 => Some(PredefinedMediaName::JapanChou3Envelope),
            67 => Some(PredefinedMediaName::JapanChou3EnvelopeRotated),
            68 => Some(PredefinedMediaName::JapanChou4Envelope),
            69 => Some(PredefinedMediaName::JapanChou4EnvelopeRotated),
            70 => Some(PredefinedMediaName::JapanDoubleHagakiPostcard),
            71 => Some(PredefinedMediaName::JapanDoubleHagakiPostcardRotated),
            72 => Some(PredefinedMediaName::JapanHagakiPostcard),
            73 => Some(PredefinedMediaName::JapanHagakiPostcardRotated),
            74 => Some(PredefinedMediaName::JapanKaku2Envelope),
            75 => Some(PredefinedMediaName::JapanKaku2EnvelopeRotated),
            76 => Some(PredefinedMediaName::JapanKaku3Envelope),
            77 => Some(PredefinedMediaName::JapanKaku3EnvelopeRotated),
            78 => Some(PredefinedMediaName::JapanLPhoto),
            79 => Some(PredefinedMediaName::JapanQuadrupleHagakiPostcard),
            80 => Some(PredefinedMediaName::JapanYou1Envelope),
            81 => Some(PredefinedMediaName::JapanYou2Envelope),
            82 => Some(PredefinedMediaName::JapanYou3Envelope),
            83 => Some(PredefinedMediaName::JapanYou4Envelope),
            84 => Some(PredefinedMediaName::JapanYou4EnvelopeRotated),
            85 => Some(PredefinedMediaName::JapanYou6Envelope),
            86 => Some(PredefinedMediaName::JapanYou6EnvelopeRotated),
            87 => Some(PredefinedMediaName::NorthAmerica10x11),
            88 => Some(PredefinedMediaName::NorthAmerica10x12),
            89 => Some(PredefinedMediaName::NorthAmerica10x14),
            90 => Some(PredefinedMediaName::NorthAmerica11x17),
            91 => Some(PredefinedMediaName::NorthAmerica14x17),
            92 => Some(PredefinedMediaName::NorthAmerica4x6),
            93 => Some(PredefinedMediaName::NorthAmerica4x8),
            94 => Some(PredefinedMediaName::NorthAmerica5x7),
            95 => Some(PredefinedMediaName::NorthAmerica8x10),
            96 => Some(PredefinedMediaName::NorthAmerica9x11),
            97 => Some(PredefinedMediaName::NorthAmericaArchitectureASheet),
            98 => Some(PredefinedMediaName::NorthAmericaArchitectureBSheet),
            99 => Some(PredefinedMediaName::NorthAmericaArchitectureCSheet),
            100 => Some(PredefinedMediaName::NorthAmericaArchitectureDSheet),
            101 => Some(PredefinedMediaName::NorthAmericaArchitectureESheet),
            102 => Some(PredefinedMediaName::NorthAmericaCSheet),
            103 => Some(PredefinedMediaName::NorthAmericaDSheet),
            104 => Some(PredefinedMediaName::NorthAmericaESheet),
            105 => Some(PredefinedMediaName::NorthAmericaExecutive),
            106 => Some(PredefinedMediaName::NorthAmericaGermanLegalFanfold),
            107 => Some(PredefinedMediaName::NorthAmericaGermanStandardFanfold),
            108 => Some(PredefinedMediaName::NorthAmericaLegal),
            109 => Some(PredefinedMediaName::NorthAmericaLegalExtra),
            110 => Some(PredefinedMediaName::NorthAmericaLetter),
            111 => Some(PredefinedMediaName::NorthAmericaLetterExtra),
            112 => Some(PredefinedMediaName::NorthAmericaLetterPlus),
            113 => Some(PredefinedMediaName::NorthAmericaLetterRotated),
            114 => Some(PredefinedMediaName::NorthAmericaMonarchEnvelope),
            115 => Some(PredefinedMediaName::NorthAmericaNote),
            116 => Some(PredefinedMediaName::NorthAmericaNumber10Envelope),
            117 => Some(PredefinedMediaName::NorthAmericaNumber10EnvelopeRotated),
            118 => Some(PredefinedMediaName::NorthAmericaNumber11Envelope),
            119 => Some(PredefinedMediaName::NorthAmericaNumber12Envelope),
            120 => Some(PredefinedMediaName::NorthAmericaNumber14Envelope),
            121 => Some(PredefinedMediaName::NorthAmericaNumber9Envelope),
            122 => Some(PredefinedMediaName::NorthAmericaPersonalEnvelope),
            123 => Some(PredefinedMediaName::NorthAmericaQuarto),
            124 => Some(PredefinedMediaName::NorthAmericaStatement),
            125 => Some(PredefinedMediaName::NorthAmericaSuperA),
            126 => Some(PredefinedMediaName::NorthAmericaSuperB),
            127 => Some(PredefinedMediaName::NorthAmericaTabloid),
            128 => Some(PredefinedMediaName::NorthAmericaTabloidExtra),
            129 => Some(PredefinedMediaName::OtherMetricA3Plus),
            130 => Some(PredefinedMediaName::OtherMetricA4Plus),
            131 => Some(PredefinedMediaName::OtherMetricFolio),
            132 => Some(PredefinedMediaName::OtherMetricInviteEnvelope),
            133 => Some(PredefinedMediaName::OtherMetricItalianEnvelope),
            134 => Some(PredefinedMediaName::PRC10Envelope),
            135 => Some(PredefinedMediaName::PRC10EnvelopeRotated),
            136 => Some(PredefinedMediaName::PRC16K),
            137 => Some(PredefinedMediaName::PRC16KRotated),
            138 => Some(PredefinedMediaName::PRC1Envelope),
            139 => Some(PredefinedMediaName::PRC1EnvelopeRotated),
            140 => Some(PredefinedMediaName::PRC2Envelope),
            141 => Some(PredefinedMediaName::PRC2EnvelopeRotated),
            142 => Some(PredefinedMediaName::PRC32K),
            143 => Some(PredefinedMediaName::PRC32KBig),
            144 => Some(PredefinedMediaName::PRC32KRotated),
            145 => Some(PredefinedMediaName::PRC3Envelope),
            146 => Some(PredefinedMediaName::PRC3EnvelopeRotated),
            147 => Some(PredefinedMediaName::PRC4Envelope),
            148 => Some(PredefinedMediaName::PRC4EnvelopeRotated),
            149 => Some(PredefinedMediaName::PRC5Envelope),
            150 => Some(PredefinedMediaName::PRC5EnvelopeRotated),
            151 => Some(PredefinedMediaName::PRC6Envelope),
            152 => Some(PredefinedMediaName::PRC6EnvelopeRotated),
            153 => Some(PredefinedMediaName::PRC7Envelope),
            154 => Some(PredefinedMediaName::PRC7EnvelopeRotated),
            155 => Some(PredefinedMediaName::PRC8Envelope),
            156 => Some(PredefinedMediaName::PRC8EnvelopeRotated),
            157 => Some(PredefinedMediaName::PRC9Envelope),
            158 => Some(PredefinedMediaName::PRC9EnvelopeRotated),
            159 => Some(PredefinedMediaName::Roll04Inch),
            160 => Some(PredefinedMediaName::Roll06Inch),
            161 => Some(PredefinedMediaName::Roll08Inch),
            162 => Some(PredefinedMediaName::Roll12Inch),
            163 => Some(PredefinedMediaName::Roll15Inch),
            164 => Some(PredefinedMediaName::Roll18Inch),
            165 => Some(PredefinedMediaName::Roll22Inch),
            166 => Some(PredefinedMediaName::Roll24Inch),
            167 => Some(PredefinedMediaName::Roll30Inch),
            168 => Some(PredefinedMediaName::Roll36Inch),
            169 => Some(PredefinedMediaName::Roll54Inch),
            _ => None,
        }
    }

    fn code(&self) -> (c: u16) {
        match *self {
            PredefinedMediaName::BusinessCard => 0,
            PredefinedMediaName::CreditCard => 1,
            PredefinedMediaName::ISOA0 => 2,
            PredefinedMediaName::ISOA1 => 3,
            PredefinedMediaName::ISOA10 => 4,
            PredefinedMediaName::ISOA2 => 5,
            PredefinedMediaName::ISOA3 => 6,
            PredefinedMediaName::ISOA3Extra => 7,
            PredefinedMediaName::ISOA3Rotated => 8,
            PredefinedMediaName::ISOA4 => 9,
            PredefinedMediaName::ISOA4Extra => 10,
            PredefinedMediaName::ISOA4Rotated => 11,
            PredefinedMediaName::ISOA5 => 12,
            PredefinedMediaName::ISOA5Extra => 13,
            PredefinedMediaName::ISOA5Rotated => 14,
            PredefinedMediaName::ISOA6 => 15,
            PredefinedMediaName::ISOA6Rotated => 16,
            PredefinedMediaName::ISOA7 => 17,
            PredefinedMediaName::ISOA8 => 18,
            PredefinedMediaName::ISOA9 => 19,
            PredefinedMediaName::ISOB0 => 20,
            PredefinedMediaName::ISOB1 => 21,
            PredefinedMediaName::ISOB10 => 22,
            PredefinedMediaName::ISOB2 => 23,
            PredefinedMediaName::ISOB3 => 24,
            PredefinedMediaName::ISOB4 => 25,
            PredefinedMediaName::ISOB4Envelope => 26,
            PredefinedMediaName::ISOB5Envelope => 27,
            PredefinedMediaName::ISOB5Extra => 28,
            PredefinedMediaName::ISOB7 => 29,
            PredefinedMediaName::ISOB8 => 30,
            PredefinedMediaName::ISOB9 => 31,
            PredefinedMediaName::ISOC0 => 32,
            PredefinedMediaName::ISOC1 => 33,
            PredefinedMediaName::ISOC10 => 34,
            PredefinedMediaName::ISOC2 => 35,
            PredefinedMediaName::ISOC3 => 36,
            PredefinedMediaName::ISOC3Envelope => 37,
            PredefinedMediaName::ISOC4 => 38,
            PredefinedMediaName::ISOC4Envelope => 39,
            PredefinedMediaName::ISOC5 => 40,
            PredefinedMediaName::ISOC5Envelope => 41,
            PredefinedMediaName::ISOC6 => 42,
            PredefinedMediaName::ISOC6C5Envelope => 43,
            PredefinedMediaName::ISOC6Envelope => 44,
            PredefinedMediaName::ISOC7 => 45,
            PredefinedMediaName::ISOC8 => 46,
            PredefinedMediaName::ISOC9 => 47,
            PredefinedMediaName::ISODLEnvelope => 48,
            PredefinedMediaName::ISODLEnvelopeRotated => 49,
            PredefinedMediaName::ISOSRA3 => 50,
            PredefinedMediaName::JISB0 => 51,
            PredefinedMediaName::JISB1 => 52,
            PredefinedMediaName::JISB10 => 53,
            PredefinedMediaName::JISB2 => 54,
            PredefinedMediaName::JISB3 => 55,
            PredefinedMediaName::JISB4 => 56,
            PredefinedMediaName::JISB4Rotated => 57,
            PredefinedMediaName::JISB5 => 58,
            PredefinedMediaName::JISB5Rotated => 59,
            PredefinedMediaName::JISB6 => 60,
            PredefinedMediaName::JISB6Rotated => 61,
            PredefinedMediaName::JISB7 => 62,
            PredefinedMediaName::JISB8 => 63,
            PredefinedMediaName::JISB9 => 64,
            PredefinedMediaName::Japan2LPhoto => 65,
            PredefinedMediaName::JapanChou3Envelope => 66,
            PredefinedMediaName::JapanChou3EnvelopeRotated => 67,
            PredefinedMediaName::JapanChou4Envelope => 68,
            PredefinedMediaName::JapanChou4EnvelopeRotated => 69,
            PredefinedMediaName::JapanDoubleHagakiPostcard => 70,
            PredefinedMediaName::JapanDoubleHagakiPostcardRotated => 71,
            PredefinedMediaName::JapanHagakiPostcard => 72,
            PredefinedMediaName::JapanHagakiPostcardRotated => 73,
            PredefinedMediaName::JapanKaku2Envelope => 74,
            PredefinedMediaName::JapanKaku2EnvelopeRotated => 75,
            PredefinedMediaName::JapanKaku3Envelope => 76,
            PredefinedMediaName::JapanKaku3EnvelopeRotated => 77,
            PredefinedMediaName::JapanLPhoto => 78,
            PredefinedMediaName::JapanQuadrupleHagakiPostcard => 79,
            PredefinedMediaName::JapanYou1Envelope => 80,
            PredefinedMediaName::JapanYou2Envelope => 81,
            PredefinedMediaName::JapanYou3Envelope => 82,
            PredefinedMediaName::JapanYou4Envelope => 83,
            PredefinedMediaName::JapanYou4EnvelopeRotated => 84,
            PredefinedMediaName::JapanYou6Envelope => 85,
            PredefinedMediaName::JapanYou6EnvelopeRotated => 86,
            PredefinedMediaName::NorthAmerica10x11 => 87,
            PredefinedMediaName::NorthAmerica10x12 => 88,
            PredefinedMediaName::NorthAmerica10x14 => 89,
            PredefinedMediaName::NorthAmerica11x17 => 90,
            PredefinedMediaName::NorthAmerica14x17 => 91,
            PredefinedMediaName::NorthAmerica4x6 => 92,
            PredefinedMediaName::NorthAmerica4x8 => 93,
            PredefinedMediaName::NorthAmerica5x7 => 94,
            PredefinedMediaName::NorthAmerica8x10 => 95,
            PredefinedMediaName::NorthAmerica9x11 => 96,
            PredefinedMediaName::NorthAmericaArchitectureASheet => 97,
            PredefinedMediaName::NorthAmericaArchitectureBSheet => 98,
            PredefinedMediaName::NorthAmericaArchitectureCSheet => 99,
            PredefinedMediaName::NorthAmericaArchitectureDSheet => 100,
            PredefinedMediaName::NorthAmericaArchitectureESheet => 101,
            PredefinedMediaName::NorthAmericaCSheet => 102,
            PredefinedMediaName::NorthAmericaDSheet => 103,
            PredefinedMediaName::NorthAmericaESheet => 104,
            PredefinedMediaName::NorthAmericaExecutive => 105,
            PredefinedMediaName::NorthAmericaGermanLegalFanfold => 106,
            PredefinedMediaName::NorthAmericaGermanStandardFanfold => 107,
            PredefinedMediaName::NorthAmericaLegal => 108,
            PredefinedMediaName::NorthAmericaLegalExtra => 109,
            PredefinedMediaName::NorthAmericaLetter => 110,
            PredefinedMediaName::NorthAmericaLetterExtra => 111,
            PredefinedMediaName::NorthAmericaLetterPlus => 112,
            PredefinedMediaName::NorthAmericaLetterRotated => 113,
            PredefinedMediaName::NorthAmericaMonarchEnvelope => 114,
            PredefinedMediaName::NorthAmericaNote => 115,
            PredefinedMediaName::NorthAmericaNumber10Envelope => 116,
            PredefinedMediaName::NorthAmericaNumber10EnvelopeRotated => 117,
            PredefinedMediaName::NorthAmericaNumber11Envelope => 118,
            PredefinedMediaName::NorthAmericaNumber12Envelope => 119,
            PredefinedMediaName::NorthAmericaNumber14Envelope => 120,
            PredefinedMediaName::NorthAmericaNumber9Envelope => 121,
            PredefinedMediaName::NorthAmericaPersonalEnvelope => 122,
            PredefinedMediaName::NorthAmericaQuarto => 123,
            PredefinedMediaName::NorthAmericaStatement => 124,
            PredefinedMediaName::NorthAmericaSuperA => 125,
            PredefinedMediaName::NorthAmericaSuperB => 126,
            PredefinedMediaName::NorthAmericaTabloid => 127,
            PredefinedMediaName::NorthAmericaTabloidExtra => 128,
            PredefinedMediaName::OtherMetricA3Plus => 129,
            PredefinedMediaName::OtherMetricA4Plus => 130,
            PredefinedMediaName::OtherMetricFolio => 131,
            PredefinedMediaName::OtherMetricInviteEnvelope => 132,
            PredefinedMediaName::OtherMetricItalianEnvelope => 133,
            PredefinedMediaName::PRC10Envelope => 134,
            PredefinedMediaName::PRC10EnvelopeRotated => 135,
            PredefinedMediaName::PRC16K => 136,
            PredefinedMediaName::PRC16KRotated => 137,
            PredefinedMediaName::PRC1Envelope => 138,
            PredefinedMediaName::PRC1EnvelopeRotated => 139,
            PredefinedMediaName::PRC2Envelope => 140,
            PredefinedMediaName::PRC2EnvelopeRotated => 141,
            PredefinedMediaName::PRC32K => 142,
            PredefinedMediaName::PRC32KBig => 143,
            PredefinedMediaName::PRC32KRotated => 144,
            PredefinedMediaName::PRC3Envelope => 145,
            PredefinedMediaName::PRC3EnvelopeRotated => 146,
            PredefinedMediaName::PRC4Envelope => 147,
            PredefinedMediaName::PRC4EnvelopeRotated => 148,
            PredefinedMediaName::PRC5Envelope => 149,
            PredefinedMediaName::PRC5EnvelopeRotated => 150,
            PredefinedMediaName::PRC6Envelope => 151,
            PredefinedMediaName::PRC6EnvelopeRotated => 152,
            PredefinedMediaName::PRC7Envelope => 153,
            PredefinedMediaName::PRC7EnvelopeRotated => 154,
            PredefinedMediaName::PRC8Envelope => 155,
            PredefinedMediaName::PRC8EnvelopeRotated => 156,
            PredefinedMediaName::PRC9Envelope => 157,
            PredefinedMediaName::PRC9EnvelopeRotated => 158,
            PredefinedMediaName::Roll04Inch => 159,
            PredefinedMediaName::Roll06Inch => 160,
            PredefinedMediaName::Roll08Inch => 161,
            PredefinedMediaName::Roll12Inch => 162,
            PredefinedMediaName::Roll15Inch => 163,
            PredefinedMediaName::Roll18Inch => 164,
            PredefinedMediaName::Roll22Inch => 165,
            PredefinedMediaName::Roll24Inch => 166,
            PredefinedMediaName::Roll30Inch => 167,
            PredefinedMediaName::Roll36Inch => 168,
            PredefinedMediaName::Roll54Inch => 169,
        }
    }

    fn from_code(code: u16) -> (r: Option<Self>) {
        match code {
            0 => Some(PredefinedMediaName::BusinessCard),
            1 => Some(PredefinedMediaName::CreditCard),
            2 => Some(PredefinedMediaName::ISOA0),
            3 => Some(PredefinedMediaName::ISOA1),
            4 => Some(PredefinedMediaName::ISOA10),
            5 => Some(PredefinedMediaName::ISOA2),
            6 => Some(PredefinedMediaName::ISOA3),
            7 => Some(PredefinedMediaName::ISOA3Extra),
            8 => Some(PredefinedMediaName::ISOA3Rotated),
            9 => Some(PredefinedMediaName::ISOA4),
            10 => Some(PredefinedMediaName::ISOA4Extra),
            11 => Some(PredefinedMediaName::ISOA4Rotated),
            12 => Some(PredefinedMediaName::ISOA5),
            13 => Some(PredefinedMediaName::ISOA5Extra),
            14 => Some(PredefinedMediaName::ISOA5Rotated),
            15 => Some(PredefinedMediaName::ISOA6),
            16 => Some(PredefinedMediaName::ISOA6Rotated),
            17 => Some(PredefinedMediaName::ISOA7),
            18 => Some(PredefinedMediaName::ISOA8),
            19 => Some(PredefinedMediaName::ISOA9),
            20 => Some(PredefinedMediaName::ISOB0),
            21 => Some(PredefinedMediaName::ISOB1),
            22 => Some(PredefinedMediaName::ISOB10),
            23 => Some(PredefinedMediaName::ISOB2),
            24 => Some(PredefinedMediaName::ISOB3),
            25 => Some(PredefinedMediaName::ISOB4),
            26 => Some(PredefinedMediaName::ISOB4Envelope),
            27 => Some(PredefinedMediaName::ISOB5Envelope),
            28 => Some(PredefinedMediaName::ISOB5Extra),
            29 => Some(PredefinedMediaName::ISOB7),
            30 => Some(PredefinedMediaName::ISOB8),
            31 => Some(PredefinedMediaName::ISOB9),
            32 => Some(PredefinedMediaName::ISOC0),
            33 => Some(PredefinedMediaName::ISOC1),
            34 => Some(PredefinedMediaName::ISOC10),
            35 => Some(PredefinedMediaName::ISOC2),
            36 => Some(PredefinedMediaName::ISOC3),
            37 => Some(PredefinedMediaName::ISOC3Envelope),
            38 => Some(PredefinedMediaName::ISOC4),
            39 => Some(PredefinedMediaName::ISOC4Envelope),
            40 => Some(PredefinedMediaName::ISOC5),
            41 => Some(PredefinedMediaName::ISOC5Envelope),
            42 => Some(PredefinedMediaName::ISOC6),
            43 => Some(PredefinedMediaName::ISOC6C5Envelope),
            44 => Some(PredefinedMediaName::ISOC6Envelope),
            45 => Some(PredefinedMediaName::ISOC7),
            46 => Some(PredefinedMediaName::ISOC8),
            47 => Some(PredefinedMediaName::ISOC9),
            48 => Some(PredefinedMediaName::ISODLEnvelope),
            49 => Some(PredefinedMediaName::ISODLEnvelopeRotated),
            50 => Some(PredefinedMediaName::ISOSRA3),
            51 => Some(PredefinedMediaName::JISB0),
            52 => Some(PredefinedMediaName::JISB1),
            53 => Some(PredefinedMediaName::JISB10),
            54 => Some(PredefinedMediaName::JISB2),
            55 => Some(PredefinedMediaName::JISB3),
            56 => Some(PredefinedMediaName::JISB4),
            57 => Some(PredefinedMediaName::JISB4Rotated),
            58 => Some(PredefinedMediaName::JISB5),
            59 => Some(PredefinedMediaName::JISB5Rotated),
            60 => Some(PredefinedMediaName::JISB6),
            61 => Some(PredefinedMediaName::JISB6Rotated),
            62 => Some(PredefinedMediaName::JISB7),
            63 => Some(PredefinedMediaName::JISB8),
            64 => Some(PredefinedMediaName::JISB9),
            65 => Some(PredefinedMediaName::Japan2LPhoto),
            66 => Some(PredefinedMediaName::JapanChou3Envelope),
            67 => Some(PredefinedMediaName::JapanChou3EnvelopeRotated),
            68 => Some(PredefinedMediaName::JapanChou4Envelope),
            69 => Some(PredefinedMediaName::JapanChou4EnvelopeRotated),
            70 => Some(PredefinedMediaName::JapanDoubleHagakiPostcard),
            71 => Some(PredefinedMediaName::JapanDoubleHagakiPostcardRotated),
            72 => Some(PredefinedMediaName::JapanHagakiPostcard),
            73 => Some(PredefinedMediaName::JapanHagakiPostcardRotated),
            74 => Some(PredefinedMediaName::JapanKaku2Envelope),
            75 => Some(PredefinedMediaName::JapanKaku2EnvelopeRotated),
            76 => Some(PredefinedMediaName::JapanKaku3Envelope),
            77 => Some(PredefinedMediaName::JapanKaku3EnvelopeRotated),
            78 => Some(PredefinedMediaName::JapanLPhoto),
            79 => Some(PredefinedMediaName::JapanQuadrupleHagakiPostcard),
            80 => Some(PredefinedMediaName::JapanYou1Envelope),
            81 => Some(PredefinedMediaName::JapanYou2Envelope),
            82 => Some(PredefinedMediaName::JapanYou3Envelope),
            83 => Some(PredefinedMediaName::JapanYou4Envelope),
            84 => Some(PredefinedMediaName::JapanYou4EnvelopeRotated),
            85 => Some(PredefinedMediaName::JapanYou6Envelope),
            86 => Some(PredefinedMediaName::JapanYou6EnvelopeRotated),
            87 => Some(PredefinedMediaName::NorthAmerica10x11),
            88 => Some(PredefinedMediaName::NorthAmerica10x12),
            89 => Some(PredefinedMediaName::NorthAmerica10x14),
            90 => Some(PredefinedMediaName::NorthAmerica11x17),
            91 => Some(PredefinedMediaName::NorthAmerica14x17),
            92 => Some(PredefinedMediaName::NorthAmerica4x6),
            93 => Some(PredefinedMediaName::NorthAmerica4x8),
            94 => Some(PredefinedMediaName::NorthAmerica5x7),
            95 => Some(PredefinedMediaName::NorthAmerica8x10),
            96 => Some(PredefinedMediaName::NorthAmerica9x11),
            97 => Some(PredefinedMediaName::NorthAmericaArchitectureASheet),
            98 => Some(PredefinedMediaName::NorthAmericaArchitectureBSheet),
            99 => Some(PredefinedMediaName::NorthAmericaArchitectureCSheet),
            100 => Some(PredefinedMediaName::NorthAmericaArchitectureDSheet),
            101 => Some(PredefinedMediaName::NorthAmericaArchitectureESheet),
            102 => Some(PredefinedMediaName::NorthAmericaCSheet),
            103 => Some(PredefinedMediaName::NorthAmericaDSheet),
            104 => Some(PredefinedMediaName::NorthAmericaESheet),
            105 => Some(PredefinedMediaName::NorthAmericaExecutive),
            106 => Some(PredefinedMediaName::NorthAmericaGermanLegalFanfold),
            107 => Some(PredefinedMediaName::NorthAmericaGermanStandardFanfold),
            108 => Some(PredefinedMediaName::NorthAmericaLegal),
            109 => Some(PredefinedMediaName::NorthAmericaLegalExtra),
            110 => Some(PredefinedMediaName::NorthAmericaLetter),
            111 => Some(PredefinedMediaName::NorthAmericaLetterExtra),
            112 => Some(PredefinedMediaName::NorthAmericaLetterPlus),
            113 => Some(PredefinedMediaName::NorthAmericaLetterRotated),
            114 => Some(PredefinedMediaName::NorthAmericaMonarchEnvelope),
            115 => Some(PredefinedMediaName::NorthAmericaNote),
            116 => Some(PredefinedMediaName::NorthAmericaNumber10Envelope),
            117 => Some(PredefinedMediaName::NorthAmericaNumber10EnvelopeRotated),
            118 => Some(PredefinedMediaName::NorthAmericaNumber11Envelope),
            119 => Some(PredefinedMediaName::NorthAmericaNumber12Envelope),
            120 => Some(PredefinedMediaName::NorthAmericaNumber14Envelope),
            121 => Some(PredefinedMediaName::NorthAmericaNumber9Envelope),
            122 => Some(PredefinedMediaName::NorthAmericaPersonalEnvelope),
            123 => Some(PredefinedMediaName::NorthAmericaQuarto),
            124 => Some(PredefinedMediaName::NorthAmericaStatement),
            125 => Some(PredefinedMediaName::NorthAmericaSuperA),
            126 => Some(PredefinedMediaName::NorthAmericaSuperB),
            127 => Some(PredefinedMediaName::NorthAmericaTabloid),
            128 => Some(PredefinedMediaName::NorthAmericaTabloidExtra),
            129 => Some(PredefinedMediaName::OtherMetricA3Plus),
            130 => Some(PredefinedMediaName::OtherMetricA4Plus),
            131 => Some(PredefinedMediaName::OtherMetricFolio),
            132 => Some(PredefinedMediaName::OtherMetricInviteEnvelope),
            133 => Some(PredefinedMediaName::OtherMetricItalianEnvelope),
            134 => Some(PredefinedMediaName::PRC10Envelope),
            135 => Some(PredefinedMediaName::PRC10EnvelopeRotated),
            136 => Some(PredefinedMediaName::PRC16K),
            137 => Some(PredefinedMediaName::PRC16KRotated),
            138 => Some(PredefinedMediaName::PRC1Envelope),
            139 => Some(PredefinedMediaName::PRC1EnvelopeRotated),
            140 => Some(PredefinedMediaName::PRC2Envelope),
            141 => Some(PredefinedMediaName::PRC2EnvelopeRotated),
            142 => Some(PredefinedMediaName::PRC32K),
            143 => Some(PredefinedMediaName::PRC32KBig),
            144 => Some(PredefinedMediaName::PRC32KRotated),
            145 => Some(PredefinedMediaName::PRC3Envelope),
            146 => Some(PredefinedMediaName::PRC3EnvelopeRotated),
            147 => Some(PredefinedMediaName::PRC4Envelope),
            148 => Some(PredefinedMediaName::PRC4EnvelopeRotated),
            149 => Some(PredefinedMediaName::PRC5Envelope),
            150 => Some(PredefinedMediaName::PRC5EnvelopeRotated),
            151 => Some(PredefinedMediaName::PRC6Envelope),
            152 => Some(PredefinedMediaName::PRC6EnvelopeRotated),
            153 => Some(PredefinedMediaName::PRC7Envelope),
            154 => Some(PredefinedMediaName::PRC7EnvelopeRotated),
            155 => Some(PredefinedMediaName::PRC8Envelope),
            156 => Some(PredefinedMediaName::PRC8EnvelopeRotated),
            157 => Some(PredefinedMediaName::PRC9Envelope),
            158 => Some(PredefinedMediaName::PRC9EnvelopeRotated),
            159 => Some(PredefinedMediaName::Roll04Inch),
            160 => Some(PredefinedMediaName::Roll06Inch),
            161 => Some(PredefinedMediaName::Roll08Inch),
            162 => Some(PredefinedMediaName::Roll12Inch),
            163 => Some(PredefinedMediaName::Roll15Inch),
            164 => Some(PredefinedMediaName::Roll18Inch),
            165 => Some(PredefinedMediaName::Roll22Inch),
            166 => Some(PredefinedMediaName::Roll24Inch),
            167 => Some(PredefinedMediaName::Roll30Inch),
            168 => Some(PredefinedMediaName::Roll36Inch),
            169 => Some(PredefinedMediaName::Roll54Inch),
            _ => None,
        }
    }

    proof fn lemma_code_round_trip(self) {
    }

    proof fn lemma_from_code_inverse(code: u16) {
    }
}

/// The IPP media keywords (PWG 5101.1 self-describing names) that stand for
/// print-schema media names, in the order in which the map inserts them.
pub open spec fn common_media_pairs() -> Seq<(Seq<char>, PredefinedMediaName)> {
    seq![
        ("iso_a0_841x1189mm"@, PredefinedMediaName::ISOA0),
        ("iso_a1_594x841mm"@, PredefinedMediaName::ISOA1),
        ("iso_a10_26x37mm"@, PredefinedMediaName::ISOA10),
        ("iso_a2_420x594mm"@, PredefinedMediaName::ISOA2),
        ("iso_a3_297x420mm"@, PredefinedMediaName::ISOA3),
        ("iso_a3-extra_322x445mm"@, PredefinedMediaName::ISOA3Extra),
        ("iso_a4_210x297mm"@, PredefinedMediaName::ISOA4),
        ("iso_a4-extra_235.5x322.3mm"@, PredefinedMediaName::ISOA4Extra),
        ("iso_a5_148x210mm"@, PredefinedMediaName::ISOA5),
        ("iso_a5-extra_174x235mm"@, PredefinedMediaName::ISOA5Extra),
        ("iso_a6_105x148mm"@, PredefinedMediaName::ISOA6),
        ("iso_a7_74x105mm"@, PredefinedMediaName::ISOA7),
        ("iso_a8_52x74mm"@, PredefinedMediaName::ISOA8),
        ("iso_a9_37x52mm"@, PredefinedMediaName::ISOA9),
        ("iso_b0_1000x1414mm"@, PredefinedMediaName::ISOB0),
        ("iso_b1_707x1000mm"@, PredefinedMediaName::ISOB1),
        ("iso_b10_31x44mm"@, PredefinedMediaName::ISOB10),
        ("iso_b2_500x707mm"@, PredefinedMediaName::ISOB2),
        ("iso_b3_353x500mm"@, PredefinedMediaName::ISOB3),
        ("iso_b4_250x353mm"@, PredefinedMediaName::ISOB4),
        ("iso_b5-extra_201x276mm"@, PredefinedMediaName::ISOB5Extra),
        ("iso_b5_176x250mm"@, PredefinedMediaName::ISOB5Envelope),
        ("iso_b7_88x125mm"@, PredefinedMediaName::ISOB7),
        ("iso_b8_62x88mm"@, PredefinedMediaName::ISOB8),
        ("iso_b9_44x62mm"@, PredefinedMediaName::ISOB9),
        ("iso_c0_917x1297mm"@, PredefinedMediaName::ISOC0),
        ("iso_c1_648x917mm"@, PredefinedMediaName::ISOC1),
        ("iso_c10_28x40mm"@, PredefinedMediaName::ISOC10),
        ("iso_c2_458x648mm"@, PredefinedMediaName::ISOC2),
        ("iso_c3_324x458mm"@, PredefinedMediaName::ISOC3Envelope),
        ("iso_c4_229x324mm"@, PredefinedMediaName::ISOC4Envelope),
        ("iso_c5_162x229mm"@, PredefinedMediaName::ISOC5Envelope),
        ("iso_c6_114x162mm"@, PredefinedMediaName::ISOC6Envelope),
        ("iso_c6c5_114x229mm"@, PredefinedMediaName::ISOC6C5Envelope),
        ("iso_c7_81x114mm"@, PredefinedMediaName::ISOC7),
        ("iso_c8_57x81mm"@, PredefinedMediaName::ISOC8),
        ("iso_c9_40x57mm"@, PredefinedMediaName::ISOC9),
        ("iso_dl_110x220mm"@, PredefinedMediaName::ISODLEnvelope),
        ("iso_sra2_450x640mm"@, PredefinedMediaName::ISOSRA3),
        ("jis_b0_1030x1456mm"@, PredefinedMediaName::JISB0),
        ("jis_b1_728x1030mm"@, PredefinedMediaName::JISB1),
        ("jis_b10_32x45mm"@, PredefinedMediaName::JISB10),
        ("jis_b2_515x728mm"@, PredefinedMediaName::JISB2),
        ("jis_b3_364x515mm"@, PredefinedMediaName::JISB3),
        ("jis_b4_257x364mm"@, PredefinedMediaName::JISB4),
        ("jis_b5_182x257mm"@, PredefinedMediaName::JISB5),
        ("jis_b6_128x182mm"@, PredefinedMediaName::JISB6),
        ("jis_b7_91x128mm"@, PredefinedMediaName::JISB7),
        ("jis_b8_64x91mm"@, PredefinedMediaName::JISB8),
        ("jis_b9_45x64mm"@, PredefinedMediaName::JISB9),
        ("jpn_chou3_120x235mm"@, PredefinedMediaName::JapanChou3Envelope),
        ("jpn_chou4_90x205mm"@, PredefinedMediaName::JapanChou4Envelope),
        ("jpn_hagaki_100x148mm"@, PredefinedMediaName::JapanHagakiPostcard),
        ("jpn_kaku2_240x332mm"@, PredefinedMediaName::JapanKaku2Envelope),
        ("jpn_kaku3_216x277mm"@, PredefinedMediaName::JapanKaku3Envelope),
        ("jpn_you4_105x235mm"@, PredefinedMediaName::JapanYou4Envelope),
        ("na_10x11_10x11in"@, PredefinedMediaName::NorthAmerica10x11),
        ("na_10x14_10x14in"@, PredefinedMediaName::NorthAmerica10x14),
        ("na_5x7_5x7in"@, PredefinedMediaName::NorthAmerica5x7),
        ("na_9x11_9x11in"@, PredefinedMediaName::NorthAmerica9x11),
        ("na_arch-a_9x12in"@, PredefinedMediaName::NorthAmericaArchitectureASheet),
        ("na_arch-b_12x18in"@, PredefinedMediaName::NorthAmericaArchitectureBSheet),
        ("na_arch-c_18x24in"@, PredefinedMediaName::NorthAmericaArchitectureCSheet),
        ("na_arch-d_24x36in"@, PredefinedMediaName::NorthAmericaArchitectureDSheet),
        ("na_arch-e_36x48in"@, PredefinedMediaName::NorthAmericaArchitectureESheet),
        ("na_c_17x22in"@, PredefinedMediaName::NorthAmericaCSheet),
        ("na_d_22x34in"@, PredefinedMediaName::NorthAmericaDSheet),
        ("na_e_34x44in"@, PredefinedMediaName::NorthAmericaESheet),
        ("na_executive_7.25x10.5in"@, PredefinedMediaName::NorthAmericaExecutive),
        ("na_ledger_11x17in"@, PredefinedMediaName::NorthAmerica11x17),
        ("na_legal-extra_9.5x15in"@, PredefinedMediaName::NorthAmericaLegalExtra),
        ("na_legal_8.5x14in"@, PredefinedMediaName::NorthAmericaLegal),
        ("na_letter-extra_9.5x12in"@, PredefinedMediaName::NorthAmericaLetterExtra),
        ("na_letter-plus_8.5x12.69in"@, PredefinedMediaName::NorthAmericaLetterPlus),
        ("na_letter_8.5x11in"@, PredefinedMediaName::NorthAmericaLetter),
        ("na_monarch_3.875x7.5in"@, PredefinedMediaName::NorthAmericaMonarchEnvelope),
        ("na_number-10_4.125x9.5in"@, PredefinedMediaName::NorthAmericaNumber10Envelope),
        ("na_number-11_4.5x10.375in"@, PredefinedMediaName::NorthAmericaNumber11Envelope),
        ("na_number-12_4.75x11in"@, PredefinedMediaName::NorthAmericaNumber12Envelope),
        ("na_number-14_5x11.5in"@, PredefinedMediaName::NorthAmericaNumber14Envelope),
        ("na_number-9_3.875x8.875in"@, PredefinedMediaName::NorthAmericaNumber9Envelope),
        ("na_personal_3.625x6.5in"@, PredefinedMediaName::NorthAmericaPersonalEnvelope),
        ("na_quarto_8.5x10.83in"@, PredefinedMediaName::NorthAmericaQuarto),
        ("na_super-a_8.94x14in"@, PredefinedMediaName::NorthAmericaSuperA),
        ("na_super-b_13x19in"@, PredefinedMediaName::NorthAmericaSuperB),
        ("prc_10_324x458mm"@, PredefinedMediaName::PRC10Envelope),
        ("prc_16k_146x215mm"@, PredefinedMediaName::PRC16K),
        ("prc_1_102x165mm"@, PredefinedMediaName::PRC1Envelope),
        ("prc_2_102x176mm"@, PredefinedMediaName::PRC2Envelope),
        ("prc_32k_97x151mm"@, PredefinedMediaName::PRC32K),
        ("prc_3_125x176mm"@, PredefinedMediaName::PRC3Envelope),
        ("prc_4_110x208mm"@, PredefinedMediaName::PRC4Envelope),
        ("prc_5_110x220mm"@, PredefinedMediaName::PRC5Envelope),
        ("prc_6_120x320mm"@, PredefinedMediaName::PRC6Envelope),
        ("prc_7_160x230mm"@, PredefinedMediaName::PRC7Envelope),
        ("prc_8_120x309mm"@, PredefinedMediaName::PRC8Envelope),
    ]
}

/// The keyword–code pairs the media map holds.
pub open spec fn common_media_relation() -> Set<(Seq<char>, u16)> {
    pairs_from(coded_table(common_media_pairs()))
}

/// The table of `common_media_pairs`, as values.
fn common_media_table() -> (t: Vec<(&'static str, PredefinedMediaName)>)
    ensures
        named_table_view(t@) == common_media_pairs(),
{
    let t = vec![
        ("iso_a0_841x1189mm", PredefinedMediaName::ISOA0),
        ("iso_a1_594x841mm", PredefinedMediaName::ISOA1),
        ("iso_a10_26x37mm", PredefinedMediaName::ISOA10),
        ("iso_a2_420x594mm", PredefinedMediaName::ISOA2),
        ("iso_a3_297x420mm", PredefinedMediaName::ISOA3),
        ("iso_a3-extra_322x445mm", PredefinedMediaName::ISOA3Extra),
        ("iso_a4_210x297mm", PredefinedMediaName::ISOA4),
        ("iso_a4-extra_235.5x322.3mm", PredefinedMediaName::ISOA4Extra),
        ("iso_a5_148x210mm", PredefinedMediaName::ISOA5),
        ("iso_a5-extra_174x235mm", PredefinedMediaName::ISOA5Extra),
        ("iso_a6_105x148mm", PredefinedMediaName::ISOA6),
        ("iso_a7_74x105mm", PredefinedMediaName::ISOA7),
        ("iso_a8_52x74mm", PredefinedMediaName::ISOA8),
        ("iso_a9_37x52mm", PredefinedMediaName::ISOA9),
        ("iso_b0_1000x1414mm", PredefinedMediaName::ISOB0),
        ("iso_b1_707x1000mm", PredefinedMediaName::ISOB1),
        ("iso_b10_31x44mm", PredefinedMediaName::ISOB10),
        ("iso_b2_500x707mm", PredefinedMediaName::ISOB2),
        ("iso_b3_353x500mm", PredefinedMediaName::ISOB3),
        ("iso_b4_250x353mm", PredefinedMediaName::ISOB4),
        ("iso_b5-extra_201x276mm", PredefinedMediaName::ISOB5Extra),
        ("iso_b5_176x250mm", PredefinedMediaName::ISOB5Envelope),
        ("iso_b7_88x125mm", PredefinedMediaName::ISOB7),
        ("iso_b8_62x88mm", PredefinedMediaName::ISOB8),
        ("iso_b9_44x62mm", PredefinedMediaName::ISOB9),
        ("iso_c0_917x1297mm", PredefinedMediaName::ISOC0),
        ("iso_c1_648x917mm", PredefinedMediaName::ISOC1),
        ("iso_c10_28x40mm", PredefinedMediaName::ISOC10),
        ("iso_c2_458x648mm", PredefinedMediaName::ISOC2),
        ("iso_c3_324x458mm", PredefinedMediaName::ISOC3Envelope),
        ("iso_c4_229x324mm", PredefinedMediaName::ISOC4Envelope),
        ("iso_c5_162x229mm", PredefinedMediaName::ISOC5Envelope),
        ("iso_c6_114x162mm", PredefinedMediaName::ISOC6Envelope),
        ("iso_c6c5_114x229mm", PredefinedMediaName::ISOC6C5Envelope),
        ("iso_c7_81x114mm", PredefinedMediaName::ISOC7),
        ("iso_c8_57x81mm", PredefinedMediaName::ISOC8),
        ("iso_c9_40x57mm", PredefinedMediaName::ISOC9),
        ("iso_dl_110x220mm", PredefinedMediaName::ISODLEnvelope),
        ("iso_sra2_450x640mm", PredefinedMediaName::ISOSRA3),
        ("jis_b0_1030x1456mm", PredefinedMediaName::JISB0),
        ("jis_b1_728x1030mm", PredefinedMediaName::JISB1),
        ("jis_b10_32x45mm", PredefinedMediaName::JISB10),
        ("jis_b2_515x728mm", PredefinedMediaName::JISB2),
        ("jis_b3_364x515mm", PredefinedMediaName::JISB3),
        ("jis_b4_257x364mm", PredefinedMediaName::JISB4),
        ("jis_b5_182x257mm", PredefinedMediaName::JISB5),
        ("jis_b6_128x182mm", PredefinedMediaName::JISB6),
        ("jis_b7_91x128mm", PredefinedMediaName::JISB7),
        ("jis_b8_64x91mm", PredefinedMediaName::JISB8),
        ("jis_b9_45x64mm", PredefinedMediaName::JISB9),
        ("jpn_chou3_120x235mm", PredefinedMediaName::JapanChou3Envelope),
        ("jpn_chou4_90x205mm", PredefinedMediaName::JapanChou4Envelope),
        ("jpn_hagaki_100x148mm", PredefinedMediaName::JapanHagakiPostcard),
        ("jpn_kaku2_240x332mm", PredefinedMediaName::JapanKaku2Envelope),
        ("jpn_kaku3_216x277mm", PredefinedMediaName::JapanKaku3Envelope),
        ("jpn_you4_105x235mm", PredefinedMediaName::JapanYou4Envelope),
        ("na_10x11_10x11in", PredefinedMediaName::NorthAmerica10x11),
        ("na_10x14_10x14in", PredefinedMediaName::NorthAmerica10x14),
        ("na_5x7_5x7in", PredefinedMediaName::NorthAmerica5x7),
        ("na_9x11_9x11in", PredefinedMediaName::NorthAmerica9x11),
        ("na_arch-a_9x12in", PredefinedMediaName::NorthAmericaArchitectureASheet),
        ("na_arch-b_12x18in", PredefinedMediaName::NorthAmericaArchitectureBSheet),
        ("na_arch-c_18x24in", PredefinedMediaName::NorthAmericaArchitectureCSheet),
        ("na_arch-d_24x36in", PredefinedMediaName::NorthAmericaArchitectureDSheet),
        ("na_arch-e_36x48in", PredefinedMediaName::NorthAmericaArchitectureESheet),
        ("na_c_17x22in", PredefinedMediaName::NorthAmericaCSheet),
        ("na_d_22x34in", PredefinedMediaName::NorthAmericaDSheet),
        ("na_e_34x44in", PredefinedMediaName::NorthAmericaESheet),
        ("na_executive_7.25x10.5in", PredefinedMediaName::NorthAmericaExecutive),
        ("na_ledger_11x17in", PredefinedMediaName::NorthAmerica11x17),
        ("na_legal-extra_9.5x15in", PredefinedMediaName::NorthAmericaLegalExtra),
        ("na_legal_8.5x14in", PredefinedMediaName::NorthAmericaLegal),
        ("na_letter-extra_9.5x12in", PredefinedMediaName::NorthAmericaLetterExtra),
        ("na_letter-plus_8.5x12.69in", PredefinedMediaName::NorthAmericaLetterPlus),
        ("na_letter_8.5x11in", PredefinedMediaName::NorthAmericaLetter),
        ("na_monarch_3.875x7.5in", PredefinedMediaName::NorthAmericaMonarchEnvelope),
        ("na_number-10_4.125x9.5in", PredefinedMediaName::NorthAmericaNumber10Envelope),
        ("na_number-11_4.5x10.375in", PredefinedMediaName::NorthAmericaNumber11Envelope),
        ("na_number-12_4.75x11in", PredefinedMediaName::NorthAmericaNumber12Envelope),
        ("na_number-14_5x11.5in", PredefinedMediaName::NorthAmericaNumber14Envelope),
        ("na_number-9_3.875x8.875in", PredefinedMediaName::NorthAmericaNumber9Envelope),
        ("na_personal_3.625x6.5in", PredefinedMediaName::NorthAmericaPersonalEnvelope),
        ("na_quarto_8.5x10.83in", PredefinedMediaName::NorthAmericaQuarto),
        ("na_super-a_8.94x14in", PredefinedMediaName::NorthAmericaSuperA),
        ("na_super-b_13x19in", PredefinedMediaName::NorthAmericaSuperB),
        ("prc_10_324x458mm", PredefinedMediaName::PRC10Envelope),
        ("prc_16k_146x215mm", PredefinedMediaName::PRC16K),
        ("prc_1_102x165mm", PredefinedMediaName::PRC1Envelope),
        ("prc_2_102x176mm", PredefinedMediaName::PRC2Envelope),
        ("prc_32k_97x151mm", PredefinedMediaName::PRC32K),
        ("prc_3_125x176mm", PredefinedMediaName::PRC3Envelope),
        ("prc_4_110x208mm", PredefinedMediaName::PRC4Envelope),
        ("prc_5_110x220mm", PredefinedMediaName::PRC5Envelope),
        ("prc_6_120x320mm", PredefinedMediaName::PRC6Envelope),
        ("prc_7_160x230mm", PredefinedMediaName::PRC7Envelope),
        ("prc_8_120x309mm", PredefinedMediaName::PRC8Envelope),
    ];
    assert(named_table_view(t@) =~= common_media_pairs());
    t
}

/// The map between IPP media keywords and print-schema media names.
pub struct CommonMediaNameMap {
    map: KeywordMap,
}

impl View for CommonMediaNameMap {
    type V = Set<(Seq<char>, u16)>;

    /// The pairs the map holds: each IPP media keyword and the code of the print-schema media name.
    closed spec fn view(&self) -> Set<(Seq<char>, u16)> {
        self.map@
    }
}

impl CommonMediaNameMap {
    /// The map holds the pairs of `common_media_pairs`.
    #[verifier::type_invariant]
    spec fn holds_table(self) -> bool {
        &&& self.map@ == common_media_relation()
        &&& self.map.wf()
        &&& codes_all_named::<Seq<char>, PredefinedMediaName>(self.map@)
    }

    /// Builds the map from `common_media_pairs`.
    pub fn new() -> (m: Self)
        ensures
            m@ == common_media_relation(),
    {
        let table = coded_pairs(&common_media_table());
        let map = KeywordMap::from_pairs(&table);
        proof {
            lemma_coded_table_named(common_media_pairs());
        }
        CommonMediaNameMap { map }
    }

    /// The media name that the keyword `key` stands for.
    pub fn ipp_to_sys(&self, key: &str) -> (r: Option<PredefinedMediaName>)
        ensures
            r == name_of_code::<PredefinedMediaName>(right_of(common_media_relation(), key@)),
    {
        proof {
            use_type_invariant(self);
        }
        self.map.name_for_keyword(key)
    }

    /// The keyword that stands for the media name `name`.
    pub fn sys_to_ipp(&self, name: PredefinedMediaName) -> (r: Option<&'static str>)
        ensures
            opt_keyword_view(r) == left_of(common_media_relation(), name.spec_code()),
    {
        proof {
            use_type_invariant(self);
        }
        self.map.keyword_for_name(name)
    }

    /// The keywords of the media names of `packs`, in order, skipping the
    /// packs that have no media name or whose name has no keyword.
    pub fn all_supported_by_win(&self, packs: &Vec<Option<PredefinedMediaName>>) -> (r: Vec<&'static str>)
        ensures
            r@.map_values(|k: &'static str| k@) == lefts_of_rights(common_media_relation(), codes_of(packs@)),
    {
        proof {
            use_type_invariant(self);
        }
        self.map.keywords_for_names(packs)
    }

    /// The position of the first pack whose media name is the one `key`
    /// stands for; `None` when `key` stands for none or no pack has it.
    pub fn find_by_ipp(&self, packs: &Vec<Option<PredefinedMediaName>>, key: &str) -> (r: Option<usize>)
        ensures
            match name_of_code::<PredefinedMediaName>(right_of(common_media_relation(), key@)) {
                Some(n) => is_first_position(packs@, Some(n), r),
                None => r is None,
            },
    {
        proof {
            use_type_invariant(self);
        }
        self.map.find_name_by_keyword(packs, key)
    }
}

/// A media keyword stands for a media name exactly when that name's
/// keyword is the media keyword.
pub proof fn lemma_media_name_round_trip(key: Seq<char>, name: PredefinedMediaName)
    ensures
        name_of_code::<PredefinedMediaName>(right_of(common_media_relation(), key)) == Some(name)
            <==> left_of(common_media_relation(), name.spec_code()) == Some(key),
{
    lemma_pairs_from_one_to_one(coded_table(common_media_pairs()));
    lemma_coded_table_named(common_media_pairs());
    lemma_name_keyword_round_trip(common_media_relation(), key, name);
}

/// Every keyword reported as supported for some packs is found among those
/// packs again: it stands for a media name that one of the packs has, so
/// `find_by_ipp` finds a pack for it.
pub proof fn lemma_media_name_supported_found(packs: Seq<Option<PredefinedMediaName>>, key: Seq<char>)
    requires
        lefts_of_rights(common_media_relation(), codes_of(packs)).contains(key),
    ensures
        name_of_code::<PredefinedMediaName>(right_of(common_media_relation(), key)) is Some,
        exists|i: int| 0 <= i < packs.len() && packs[i] == name_of_code::<PredefinedMediaName>(right_of(common_media_relation(), key)),
{
    lemma_pairs_from_one_to_one(coded_table(common_media_pairs()));
    lemma_supported_key_found(common_media_relation(), packs, key);
}

} // verus!
