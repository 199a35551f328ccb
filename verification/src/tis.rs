//! Code tables of the CISAC Territory Information System (TIS): rights
//! societies, countries and regions, each with its numeric code.
use vstd::prelude::*;

verus! {

/// A rights society (PRO) of the CISAC Territory Information System, by its society code.
#[derive(Debug, Clone, Copy, PartialEq, Eq, Structural)]
pub enum SocietyCode {
    /// Public Domain
    Dp,
    /// Israel
    Acum,
    /// Brazil
    Addaf,
    /// Greece
    Aepi,
    /// Uruguay
    Agadu,
    /// Austria
    Akm,
    /// Central Afr Rep
    Bucuda,
    /// Peru
    Apdayc,
    /// Australia
    Apra,
    /// Hungary
    Artisjus,
    /// USA
    Ascap,
    /// Austria
    AustroMechana,
    /// Australia
    Amcos,
    /// German Dem Rep
    Awa,
    /// Argentina
    Argentores,
    /// Paraguay
    Apa,
    /// Mali
    Bumda,
    /// USA
    Amra,
    /// Guinea
    Bgda,
    /// Morocco
    Bmda,
    /// Canada
    Sodrac,
    /// USA
    Bmi,
    /// Nigeria
    Mcsn,
    /// Netherlands
    Buma,
    /// Ivory Coast
    Burida,
    /// Senegal
    Bsda,
    /// Hong Kong
    Cash,
    /// Canada
    Capac,
    /// Slovakia
    Lita,
    /// Chile
    Scd,
    /// Brazil
    Amar,
    /// Czech Republic
    Dilia,
    /// Philippines
    Filscap,
    /// Madagascar
    Omda,
    /// USA
    HarryFoxAgency,
    /// German Fed Rep
    Gema,
    /// India
    Iprs,
    /// Benin
    Bubedra,
    /// Japan
    Jasrac,
    /// Bulgaria
    Musicautor,
    /// Denmark
    Koda,
    /// Austria
    LiterarMechana,
    /// Austria
    Lvg,
    /// Kenya
    Mcsk,
    /// United Kingdom
    Mcps,
    /// Burkina Faso
    Bbda,
    /// United Kingdom
    Mrs,
    /// Congo
    Bcda,
    /// Scandinavia
    Ncb,
    /// Algeria
    Onda,
    /// Czech Republic
    Osa,
    /// Switzerland
    Prolitteris,
    /// United Kingdom
    Prs,
    /// Canada
    Procan,
    /// United Kingdom
    Alcs,
    /// Belgium
    Sabam,
    /// France
    Sacd,
    /// Egypt
    Sacerau,
    /// France
    Sacem,
    /// Mexico
    Sacm,
    /// Venezuela
    Sacven,
    /// Argentina
    Sadaic,
    /// Brazil
    Sadembra,
    /// South Africa
    Samro,
    /// Yugoslavia
    Sokoj,
    /// Ecuador
    Sayce,
    /// Brazil
    Sbacem,
    /// Brazil
    Sbat,
    /// France
    Sdrm,
    /// Portugal
    Spa,
    /// Mexico
    Sogem,
    /// USA
    Sesac,
    /// Spain
    Sgae,
    /// France
    Scam,
    /// Italy
    Siae,
    /// Switzerland
    Suissimage,
    /// Puerto Rico
    Acemla,
    /// Iceland
    Stef,
    /// Netherlands
    Stemra,
    /// Sweden
    Stim,
    /// Switzerland
    Suisa,
    /// South Africa
    Sarral,
    /// Tunisia
    Otpda,
    /// Zaire
    Soneca,
    /// Columbia
    Sayco,
    /// Slovakia
    Soza,
    /// Brazil
    Sicam,
    /// French Polynesia
    Spacemf,
    /// Canada
    Cmrra,
    /// Finland
    Teosto,
    /// Norway
    Tono,
    /// Switzerland
    Ssa,
    /// Cameroon Rep
    Socinada,
    /// Brazil
    Ubc,
    /// Russia
    Rao,
    /// 95 German
    Vgwort,
    /// Trinidad & Tobago
    Cott,
    /// Poland
    Zaiks,
    /// Zimbabwe
    Zimra,
    Ns,
    /// Canada
    Socan,
    /// Namibia
    Nascam,
    /// Cuba
    Acdam,
    /// Malaysia
    Macp,
    /// Mauritius
    Masa,
    /// Singapore
    Compass,
    /// Costa Rica
    Acam,
    /// Taiwan
    Cha,
    /// Indonesia
    Kci,
    /// Lithuania
    LatgaA,
    /// Croatia
    HdsZamp,
    /// Slovenia
    Sazas,
    /// Latvia
    Laa,
    /// Guatemala
    Agayc,
    /// Romania
    UcmrAda,
    /// Estonia
    Eau,
    /// Turkey
    Mesam,
    /// South Korea
    Komca,
    /// China
    Mcsc,
    /// Netherlands
    Lira,
    /// Austria
    Vdfs,
    /// Latvia
    AkkaLaa,
    /// Ghana
    Cosga,
    /// Malawi
    Cosoma,
    /// Niger
    Bnda,
    /// Thailand
    Mct,
    /// Albania
    Albautor,
    /// Ireland
    Imro,
    /// Bolivia
    Sobodaycom,
    /// Togo
    Butodra,
    /// Greece
    Sada,
    /// German Federal Republic
    BildKunst,
    /// Zambia
    Zamcops,
    /// Sri Lanka
    Slprs,
    /// Greece
    Sadh,
    /// Macedonia
    ZampMacedonia,
    /// Belgium
    Sofam,
    /// Finland
    Kopiosto,
    /// 139 Denmark
    CopyDanBilledkunst,
    /// Ukraine
    Uacrr,
    /// Chile (formerly known as GESATCH
    AtnLegacy,
    /// South Africa
    Dalro,
    /// Bulgaria
    Teaterautor,
    /// Croatia
    Haa,
    /// United Kingdom
    Dprs,
    /// Panama
    Spac,
    /// Bulgaria
    Filmautor,
    /// France
    Adagp,
    /// USA
    Ars,
    /// Netherlands
    Beeldrecht,
    /// Norway
    Bono,
    /// Sweden
    Bus,
    /// United Kingdom
    Dacs,
    /// Hungary
    Hungart,
    /// Mexico
    Somaap,
    /// USA
    Vaga,
    /// Austria
    Vbk,
    /// Spain
    Vegap,
    /// Australia
    Viscopy,
    /// Belarus
    Rupis,
    /// Taiwan (Province Of China
    Must,
    /// Australia
    Ampal,
    /// Japan
    ApgJapan,
    /// Peru
    Apsav,
    /// Chile
    Atn,
    /// Venezuela
    Autorarte,
    /// Netherlands
    Burafo,
    /// Australia
    Cal,
    /// Barbados
    Coscap,
    /// Nepal
    Cpsn,
    /// Chile
    Creaimagen,
    /// United States
    Dga,
    /// Mexico
    Directores,
    /// 174 Hungary
    FlimJus,
    /// Romania
    Copyro,
    /// Jamaica
    Jacap,
    /// Kazakhstan
    Kazak,
    /// Korea Republic Of
    Kosa,
    /// Finland
    Kuvasto,
    /// Austria
    Musikedition,
    /// United States
    Nmpa,
    /// Indonesia
    Pappri,
    /// Korea Republic Of
    Sack,
    /// Canada
    Sartec,
    /// France
    Sesam,
    /// France
    Sgdl,
    /// France
    Snac,
    /// France
    SocieteDeLimage,
    /// Brazil
    Socinpro,
    /// Greece
    Sope,
    /// Canada
    Spacq,
    /// Sweden
    Sff,
    /// United Kingdom
    TheSocietyOfAuthors,
    /// 194 Holy See (Vatican City State
    UfficioLegale,
    /// Netherlands
    Vevam,
    /// United States
    Wga,
    /// Japan
    Wgj,
    /// Slovenia
    ZampSlovenia,
    /// Poland
    Zapa,
    /// Turkey
    Msg,
    /// Brazil
    Abramus,
    /// Moldova _ Republic Of
    Asdac,
    /// Australia
    Awgacs,
    /// Georgia
    Sas,
    /// Canada
    Sodart,
    /// Finland
    SuomenKirjailijaliitto,
    /// United States
    TheAuthorsRegistryInc,
    /// Guinea_Bissau
    Sga,
    /// Armenia
    Armauthor,
    /// Canada
    Access,
    /// Canada
    Cscs,
    /// Canada
    Drcc,
    /// Saint Lucia
    Hms,
    /// Kyrgyzstan
    Kyrgyzpatent,
    /// Bosnia And Herzegovina
    Sqn,
    /// Brazil
    Abrac,
    /// Brazil
    Anacim,
    /// Brazil
    Assim,
    /// Brazil
    Atida,
    /// Brazil
    Sabem,
    /// Peru
    Fonoperu,
    /// Tanzania, United Republic Of
    Cosota,
    /// Mozambique
    Somas,
    /// France
    Saif,
    /// Honduras
    Aacimh,
    /// Dominican Republic
    Sgacedom,
    /// Russian Federation
    Roms,
    /// United States
    Icg,
    /// Cuba
    Adavis,
    /// Brazil
    Autvis,
    /// Czech Republic
    Gestor,
    /// Luxembourg
    Sacemluxembourg,
    /// Uganda
    Ucoso,
    /// France
    Sacenc,
    /// United States
    WidCentre,
    /// Belgium
    Gesac,
    /// Uruguay
    Latinautor,
    /// Sweden
    NordDoc,
    /// United States
    Songcode,
    /// Netherlands
    Imjv,
    /// Trinidad And Tobago
    Ccl,
    /// Singapore
    Misasia,
    /// Brazil
    Ecad,
    /// Spain
    Latinnet,
    /// Hong Kong));
    Diva,
    /// USA));
    MusicMark,
}

impl SocietyCode {
    /// The numeric code of each SocietyCode value.
    pub open spec fn spec_code(self) -> u16 {
        match self {
            SocietyCode::Dp => 0,
            SocietyCode::Acum => 1,
            SocietyCode::Addaf => 2,
            SocietyCode::Aepi => 3,
            SocietyCode::Agadu => 4,
            SocietyCode::Akm => 5,
            SocietyCode::Bucuda => 6,
            SocietyCode::Apdayc => 7,
            SocietyCode::Apra => 8,
            SocietyCode::Artisjus => 9,
            SocietyCode::Ascap => 10,
            SocietyCode::AustroMechana => 11,
            SocietyCode::Amcos => 12,
            SocietyCode::Awa => 13,
            SocietyCode::Argentores => 14,
            SocietyCode::Apa => 15,
            SocietyCode::Bumda => 16,
            SocietyCode::Amra => 17,
            SocietyCode::Bgda => 18,
            SocietyCode::Bmda => 19,
            SocietyCode::Sodrac => 20,
            SocietyCode::Bmi => 21,
            SocietyCode::Mcsn => 22,
            SocietyCode::Buma => 23,
            SocietyCode::Burida => 24,
            SocietyCode::Bsda => 25,
            SocietyCode::Cash => 26,
            SocietyCode::Capac => 27,
            SocietyCode::Lita => 28,
            SocietyCode::Scd => 29,
            SocietyCode::Amar => 30,
            SocietyCode::Dilia => 31,
            SocietyCode::Filscap => 32,
            SocietyCode::Omda => 33,
            SocietyCode::HarryFoxAgency => 34,
            SocietyCode::Gema => 35,
            SocietyCode::Iprs => 36,
            SocietyCode::Bubedra => 37,
            SocietyCode::Jasrac => 38,
            SocietyCode::Musicautor => 39,
            SocietyCode::Koda => 40,
            SocietyCode::LiterarMechana => 41,
            SocietyCode::Lvg => 42,
            SocietyCode::Mcsk => 43,
            SocietyCode::Mcps => 44,
            SocietyCode::Bbda => 45,
            SocietyCode::Mrs => 46,
            SocietyCode::Bcda => 47,
            SocietyCode::Ncb => 48,
            SocietyCode::Onda => 49,
            SocietyCode::Osa => 50,
            SocietyCode::Prolitteris => 51,
            SocietyCode::Prs => 52,
            SocietyCode::Procan => 53,
            SocietyCode::Alcs => 54,
            SocietyCode::Sabam => 55,
            SocietyCode::Sacd => 56,
            SocietyCode::Sacerau => 57,
            SocietyCode::Sacem => 58,
            SocietyCode::Sacm => 59,
            SocietyCode::Sacven => 60,
            SocietyCode::Sadaic => 61,
            SocietyCode::Sadembra => 62,
            SocietyCode::Samro => 63,
            SocietyCode::Sokoj => 64,
            SocietyCode::Sayce => 65,
            SocietyCode::Sbacem => 66,
            SocietyCode::Sbat => 67,
            SocietyCode::Sdrm => 68,
            SocietyCode::Spa => 69,
            SocietyCode::Sogem => 70,
            SocietyCode::Sesac => 71,
            SocietyCode::Sgae => 72,
            SocietyCode::Scam => 73,
            SocietyCode::Siae => 74,
            SocietyCode::Suissimage => 75,
            SocietyCode::Acemla => 76,
            SocietyCode::Stef => 77,
            SocietyCode::Stemra => 78,
            SocietyCode::Stim => 79,
            SocietyCode::Suisa => 80,
            SocietyCode::Sarral => 81,
            SocietyCode::Otpda => 82,
            SocietyCode::Soneca => 83,
            SocietyCode::Sayco => 84,
            SocietyCode::Soza => 85,
            SocietyCode::Sicam => 86,
            SocietyCode::Spacemf => 87,
            SocietyCode::Cmrra => 88,
            SocietyCode::Teosto => 89,
            SocietyCode::Tono => 90,
            SocietyCode::Ssa => 91,
            SocietyCode::Socinada => 92,
            SocietyCode::Ubc => 93,
            SocietyCode::Rao => 94,
            SocietyCode::Vgwort => 95,
            SocietyCode::Cott => 96,
            SocietyCode::Zaiks => 97,
            SocietyCode::Zimra => 98,
            SocietyCode::Ns => 99,
            SocietyCode::Socan => 101,
            SocietyCode::Nascam => 102,
            SocietyCode::Acdam => 103,
            SocietyCode::Macp => 104,
            SocietyCode::Masa => 105,
            SocietyCode::Compass => 106,
            SocietyCode::Acam => 107,
            SocietyCode::Cha => 108,
            SocietyCode::Kci => 109,
            SocietyCode::LatgaA => 110,
            SocietyCode::HdsZamp => 111,
            SocietyCode::Sazas => 112,
            SocietyCode::Laa => 113,
            SocietyCode::Agayc => 114,
            SocietyCode::UcmrAda => 115,
            SocietyCode::Eau => 116,
            SocietyCode::Mesam => 117,
            SocietyCode::Komca => 118,
            SocietyCode::Mcsc => 119,
            SocietyCode::Lira => 120,
            SocietyCode::Vdfs => 121,
            SocietyCode::AkkaLaa => 122,
            SocietyCode::Cosga => 123,
            SocietyCode::Cosoma => 124,
            SocietyCode::Bnda => 125,
            SocietyCode::Mct => 126,
            SocietyCode::Albautor => 127,
            SocietyCode::Imro => 128,
            SocietyCode::Sobodaycom => 129,
            SocietyCode::Butodra => 130,
            SocietyCode::Sada => 131,
            SocietyCode::BildKunst => 132,
            SocietyCode::Zamcops => 133,
            SocietyCode::Slprs => 134,
            SocietyCode::Sadh => 135,
            SocietyCode::ZampMacedonia => 136,
            SocietyCode::Sofam => 137,
            SocietyCode::Kopiosto => 138,
            SocietyCode::CopyDanBilledkunst => 139,
            SocietyCode::Uacrr => 140,
            SocietyCode::AtnLegacy => 141,
            SocietyCode::Dalro => 142,
            SocietyCode::Teaterautor => 143,
            SocietyCode::Haa => 144,
            SocietyCode::Dprs => 145,
            SocietyCode::Spac => 146,
            SocietyCode::Filmautor => 147,
            SocietyCode::Adagp => 148,
            SocietyCode::Ars => 149,
            SocietyCode::Beeldrecht => 150,
            SocietyCode::Bono => 151,
            SocietyCode::Bus => 152,
            SocietyCode::Dacs => 153,
            SocietyCode::Hungart => 154,
            SocietyCode::Somaap => 155,
            SocietyCode::Vaga => 156,
            SocietyCode::Vbk => 157,
            SocietyCode::Vegap => 158,
            SocietyCode::Viscopy => 159,
            SocietyCode::Rupis => 160,
            SocietyCode::Must => 161,
            SocietyCode::Ampal => 162,
            SocietyCode::ApgJapan => 163,
            SocietyCode::Apsav => 164,
            SocietyCode::Atn => 165,
            SocietyCode::Autorarte => 166,
            SocietyCode::Burafo => 167,
            SocietyCode::Cal => 168,
            SocietyCode::Coscap => 169,
            SocietyCode::Cpsn => 170,
            SocietyCode::Creaimagen => 171,
            SocietyCode::Dga => 172,
            SocietyCode::Directores => 173,
            SocietyCode::FlimJus => 174,
            SocietyCode::Copyro => 175,
            SocietyCode::Jacap => 176,
            SocietyCode::Kazak => 177,
            SocietyCode::Kosa => 178,
            SocietyCode::Kuvasto => 179,
            SocietyCode::Musikedition => 180,
            SocietyCode::Nmpa => 181,
            SocietyCode::Pappri => 182,
            SocietyCode::Sack => 183,
            SocietyCode::Sartec => 184,
            SocietyCode::Sesam => 185,
            SocietyCode::Sgdl => 186,
            SocietyCode::Snac => 187,
            SocietyCode::SocieteDeLimage => 188,
            SocietyCode::Socinpro => 189,
            SocietyCode::Sope => 190,
            SocietyCode::Spacq => 191,
            SocietyCode::Sff => 192,
            SocietyCode::TheSocietyOfAuthors => 193,
            SocietyCode::UfficioLegale => 194,
            SocietyCode::Vevam => 195,
            SocietyCode::Wga => 196,
            SocietyCode::Wgj => 197,
            SocietyCode::ZampSlovenia => 198,
            SocietyCode::Zapa => 199,
            SocietyCode::Msg => 200,
            SocietyCode::Abramus => 201,
            SocietyCode::Asdac => 202,
            SocietyCode::Awgacs => 203,
            SocietyCode::Sas => 204,
            SocietyCode::Sodart => 205,
            SocietyCode::SuomenKirjailijaliitto => 206,
            SocietyCode::TheAuthorsRegistryInc => 207,
            SocietyCode::Sga => 208,
            SocietyCode::Armauthor => 209,
            SocietyCode::Access => 210,
            SocietyCode::Cscs => 212,
            SocietyCode::Drcc => 213,
            SocietyCode::Hms => 214,
            SocietyCode::Kyrgyzpatent => 215,
            SocietyCode::Sqn => 216,
            SocietyCode::Abrac => 217,
            SocietyCode::Anacim => 218,
            SocietyCode::Assim => 219,
            SocietyCode::Atida => 220,
            SocietyCode::Sabem => 221,
            SocietyCode::Fonoperu => 222,
            SocietyCode::Cosota => 223,
            SocietyCode::Somas => 224,
            SocietyCode::Saif => 225,
            SocietyCode::Aacimh => 226,
            SocietyCode::Sgacedom => 227,
            SocietyCode::Roms => 228,
            SocietyCode::Icg => 229,
            SocietyCode::Adavis => 230,
            SocietyCode::Autvis => 231,
            SocietyCode::Gestor => 232,
            SocietyCode::Sacemluxembourg => 233,
            SocietyCode::Ucoso => 234,
            SocietyCode::Sacenc => 235,
            SocietyCode::WidCentre => 300,
            SocietyCode::Gesac => 301,
            SocietyCode::Latinautor => 302,
            SocietyCode::NordDoc => 303,
            SocietyCode::Songcode => 304,
            SocietyCode::Imjv => 305,
            SocietyCode::Ccl => 306,
            SocietyCode::Misasia => 307,
            SocietyCode::Ecad => 308,
            SocietyCode::Latinnet => 309,
            SocietyCode::Diva => 310,
            SocietyCode::MusicMark => 707,
        }
    }

    /// The SocietyCode value that carries a numeric code, if any.
    pub open spec fn spec_from_code(n: u16) -> Option<Self> {
        match n {
            0 => Some(SocietyCode::Dp),
            1 => Some(SocietyCode::Acum),
            2 => Some(SocietyCode::Addaf),
            3 => Some(SocietyCode::Aepi),
            4 => Some(SocietyCode::Agadu),
            5 => Some(SocietyCode::Akm),
            6 => Some(SocietyCode::Bucuda),
            7 => Some(SocietyCode::Apdayc),
            8 => Some(SocietyCode::Apra),
            9 => Some(SocietyCode::Artisjus),
            10 => Some(SocietyCode::Ascap),
            11 => Some(SocietyCode::AustroMechana),
            12 => Some(SocietyCode::Amcos),
            13 => Some(SocietyCode::Awa),
            14 => Some(SocietyCode::Argentores),
            15 => Some(SocietyCode::Apa),
            16 => Some(SocietyCode::Bumda),
            17 => Some(SocietyCode::Amra),
            18 => Some(SocietyCode::Bgda),
            19 => Some(SocietyCode::Bmda),
            20 => Some(SocietyCode::Sodrac),
            21 => Some(SocietyCode::Bmi),
            22 => Some(SocietyCode::Mcsn),
            23 => Some(SocietyCode::Buma),
            24 => Some(SocietyCode::Burida),
            25 => Some(SocietyCode::Bsda),
            26 => Some(SocietyCode::Cash),
            27 => Some(SocietyCode::Capac),
            28 => Some(SocietyCode::Lita),
            29 => Some(SocietyCode::Scd),
            30 => Some(SocietyCode::Amar),
            31 => Some(SocietyCode::Dilia),
            32 => Some(SocietyCode::Filscap),
            33 => Some(SocietyCode::Omda),
            34 => Some(SocietyCode::HarryFoxAgency),
            35 => Some(SocietyCode::Gema),
            36 => Some(SocietyCode::Iprs),
            37 => Some(SocietyCode::Bubedra),
            38 => Some(SocietyCode::Jasrac),
            39 => Some(SocietyCode::Musicautor),
            40 => Some(SocietyCode::Koda),
            41 => Some(SocietyCode::LiterarMechana),
            42 => Some(SocietyCode::Lvg),
            43 => Some(SocietyCode::Mcsk),
            44 => Some(SocietyCode::Mcps),
            45 => Some(SocietyCode::Bbda),
            46 => Some(SocietyCode::Mrs),
            47 => Some(SocietyCode::Bcda),
            48 => Some(SocietyCode::Ncb),
            49 => Some(SocietyCode::Onda),
            50 => Some(SocietyCode::Osa),
            51 => Some(SocietyCode::Prolitteris),
            52 => Some(SocietyCode::Prs),
            53 => Some(SocietyCode::Procan),
            54 => Some(SocietyCode::Alcs),
            55 => Some(SocietyCode::Sabam),
            56 => Some(SocietyCode::Sacd),
            57 => Some(SocietyCode::Sacerau),
            58 => Some(SocietyCode::Sacem),
            59 => Some(SocietyCode::Sacm),
            60 => Some(SocietyCode::Sacven),
            61 => Some(SocietyCode::Sadaic),
            62 => Some(SocietyCode::Sadembra),
            63 => Some(SocietyCode::Samro),
            64 => Some(SocietyCode::Sokoj),
            65 => Some(SocietyCode::Sayce),
            66 => Some(SocietyCode::Sbacem),
            67 => Some(SocietyCode::Sbat),
            68 => Some(SocietyCode::Sdrm),
            69 => Some(SocietyCode::Spa),
            70 => Some(SocietyCode::Sogem),
            71 => Some(SocietyCode::Sesac),
            72 => Some(SocietyCode::Sgae),
            73 => Some(SocietyCode::Scam),
            74 => Some(SocietyCode::Siae),
            75 => Some(SocietyCode::Suissimage),
            76 => Some(SocietyCode::Acemla),
            77 => Some(SocietyCode::Stef),
            78 => Some(SocietyCode::Stemra),
            79 => Some(SocietyCode::Stim),
            80 => Some(SocietyCode::Suisa),
            81 => Some(SocietyCode::Sarral),
            82 => Some(SocietyCode::Otpda),
            83 => Some(SocietyCode::Soneca),
            84 => Some(SocietyCode::Sayco),
            85 => Some(SocietyCode::Soza),
            86 => Some(SocietyCode::Sicam),
            87 => Some(SocietyCode::Spacemf),
            88 => Some(SocietyCode::Cmrra),
            89 => Some(SocietyCode::Teosto),
            90 => Some(SocietyCode::Tono),
            91 => Some(SocietyCode::Ssa),
            92 => Some(SocietyCode::Socinada),
            93 => Some(SocietyCode::Ubc),
            94 => Some(SocietyCode::Rao),
            95 => Some(SocietyCode::Vgwort),
            96 => Some(SocietyCode::Cott),
            97 => Some(SocietyCode::Zaiks),
            98 => Some(SocietyCode::Zimra),
            99 => Some(SocietyCode::Ns),
            101 => Some(SocietyCode::Socan),
            102 => Some(SocietyCode::Nascam),
            103 => Some(SocietyCode::Acdam),
            104 => Some(SocietyCode::Macp),
            105 => Some(SocietyCode::Masa),
            106 => Some(SocietyCode::Compass),
            107 => Some(SocietyCode::Acam),
            108 => Some(SocietyCode::Cha),
            109 => Some(SocietyCode::Kci),
            110 => Some(SocietyCode::LatgaA),
            111 => Some(SocietyCode::HdsZamp),
            112 => Some(SocietyCode::Sazas),
            113 => Some(SocietyCode::Laa),
            114 => Some(SocietyCode::Agayc),
            115 => Some(SocietyCode::UcmrAda),
            116 => Some(SocietyCode::Eau),
            117 => Some(SocietyCode::Mesam),
            118 => Some(SocietyCode::Komca),
            119 => Some(SocietyCode::Mcsc),
            120 => Some(SocietyCode::Lira),
            121 => Some(SocietyCode::Vdfs),
            122 => Some(SocietyCode::AkkaLaa),
            123 => Some(SocietyCode::Cosga),
            124 => Some(SocietyCode::Cosoma),
            125 => Some(SocietyCode::Bnda),
            126 => Some(SocietyCode::Mct),
            127 => Some(SocietyCode::Albautor),
            128 => Some(SocietyCode::Imro),
            129 => Some(SocietyCode::Sobodaycom),
            130 => Some(SocietyCode::Butodra),
            131 => Some(SocietyCode::Sada),
            132 => Some(SocietyCode::BildKunst),
            133 => Some(SocietyCode::Zamcops),
            134 => Some(SocietyCode::Slprs),
            135 => Some(SocietyCode::Sadh),
            136 => Some(SocietyCode::ZampMacedonia),
            137 => Some(SocietyCode::Sofam),
            138 => Some(SocietyCode::Kopiosto),
            139 => Some(SocietyCode::CopyDanBilledkunst),
            140 => Some(SocietyCode::Uacrr),
            141 => Some(SocietyCode::AtnLegacy),
            142 => Some(SocietyCode::Dalro),
            143 => Some(SocietyCode::Teaterautor),
            144 => Some(SocietyCode::Haa),
            145 => Some(SocietyCode::Dprs),
            146 => Some(SocietyCode::Spac),
            147 => Some(SocietyCode::Filmautor),
            148 => Some(SocietyCode::Adagp),
            149 => Some(SocietyCode::Ars),
            150 => Some(SocietyCode::Beeldrecht),
            151 => Some(SocietyCode::Bono),
            152 => Some(SocietyCode::Bus),
            153 => Some(SocietyCode::Dacs),
            154 => Some(SocietyCode::Hungart),
            155 => Some(SocietyCode::Somaap),
            156 => Some(SocietyCode::Vaga),
            157 => Some(SocietyCode::Vbk),
            158 => Some(SocietyCode::Vegap),
            159 => Some(SocietyCode::Viscopy),
            160 => Some(SocietyCode::Rupis),
            161 => Some(SocietyCode::Must),
            162 => Some(SocietyCode::Ampal),
            163 => Some(SocietyCode::ApgJapan),
            164 => Some(SocietyCode::Apsav),
            165 => Some(SocietyCode::Atn),
            166 => Some(SocietyCode::Autorarte),
            167 => Some(SocietyCode::Burafo),
            168 => Some(SocietyCode::Cal),
            169 => Some(SocietyCode::Coscap),
            170 => Some(SocietyCode::Cpsn),
            171 => Some(SocietyCode::Creaimagen),
            172 => Some(SocietyCode::Dga),
            173 => Some(SocietyCode::Directores),
            174 => Some(SocietyCode::FlimJus),
            175 => Some(SocietyCode::Copyro),
            176 => Some(SocietyCode::Jacap),
            177 => Some(SocietyCode::Kazak),
            178 => Some(SocietyCode::Kosa),
            179 => Some(SocietyCode::Kuvasto),
            180 => Some(SocietyCode::Musikedition),
            181 => Some(SocietyCode::Nmpa),
            182 => Some(SocietyCode::Pappri),
            183 => Some(SocietyCode::Sack),
            184 => Some(SocietyCode::Sartec),
            185 => Some(SocietyCode::Sesam),
            186 => Some(SocietyCode::Sgdl),
            187 => Some(SocietyCode::Snac),
            188 => Some(SocietyCode::SocieteDeLimage),
            189 => Some(SocietyCode::Socinpro),
            190 => Some(SocietyCode::Sope),
            191 => Some(SocietyCode::Spacq),
            192 => Some(SocietyCode::Sff),
            193 => Some(SocietyCode::TheSocietyOfAuthors),
            194 => Some(SocietyCode::UfficioLegale),
            195 => Some(SocietyCode::Vevam),
            196 => Some(SocietyCode::Wga),
            197 => Some(SocietyCode::Wgj),
            198 => Some(SocietyCode::ZampSlovenia),
            199 => Some(SocietyCode::Zapa),
            200 => Some(SocietyCode::Msg),
            201 => Some(SocietyCode::Abramus),
            202 => Some(SocietyCode::Asdac),
            203 => Some(SocietyCode::Awgacs),
            204 => Some(SocietyCode::Sas),
            205 => Some(SocietyCode::Sodart),
            206 => Some(SocietyCode::SuomenKirjailijaliitto),
            207 => Some(SocietyCode::TheAuthorsRegistryInc),
            208 => Some(SocietyCode::Sga),
            209 => Some(SocietyCode::Armauthor),
            210 => Some(SocietyCode::Access),
            212 => Some(SocietyCode::Cscs),
            213 => Some(SocietyCode::Drcc),
            214 => Some(SocietyCode::Hms),
            215 => Some(SocietyCode::Kyrgyzpatent),
            216 => Some(SocietyCode::Sqn),
            217 => Some(SocietyCode::Abrac),
            218 => Some(SocietyCode::Anacim),
            219 => Some(SocietyCode::Assim),
            220 => Some(SocietyCode::Atida),
            221 => Some(SocietyCode::Sabem),
            222 => Some(SocietyCode::Fonoperu),
            223 => Some(SocietyCode::Cosota),
            224 => Some(SocietyCode::Somas),
            225 => Some(SocietyCode::Saif),
            226 => Some(SocietyCode::Aacimh),
            227 => Some(SocietyCode::Sgacedom),
            228 => Some(SocietyCode::Roms),
            229 => Some(SocietyCode::Icg),
            230 => Some(SocietyCode::Adavis),
            231 => Some(SocietyCode::Autvis),
            232 => Some(SocietyCode::Gestor),
            233 => Some(SocietyCode::Sacemluxembourg),
            234 => Some(SocietyCode::Ucoso),
            235 => Some(SocietyCode::Sacenc),
            300 => Some(SocietyCode::WidCentre),
            301 => Some(SocietyCode::Gesac),
            302 => Some(SocietyCode::Latinautor),
            303 => Some(SocietyCode::NordDoc),
            304 => Some(SocietyCode::Songcode),
            305 => Some(SocietyCode::Imjv),
            306 => Some(SocietyCode::Ccl),
            307 => Some(SocietyCode::Misasia),
            308 => Some(SocietyCode::Ecad),
            309 => Some(SocietyCode::Latinnet),
            310 => Some(SocietyCode::Diva),
            707 => Some(SocietyCode::MusicMark),
            _ => None,
        }
    }

    /// The numeric code of this value.
    pub fn code(&self) -> (r: u16)
        ensures
            r == self.spec_code(),
    {
        match self {
            SocietyCode::Dp => 0,
            SocietyCode::Acum => 1,
            SocietyCode::Addaf => 2,
            SocietyCode::Aepi => 3,
            SocietyCode::Agadu => 4,
            SocietyCode::Akm => 5,
            SocietyCode::Bucuda => 6,
            SocietyCode::Apdayc => 7,
            SocietyCode::Apra => 8,
            SocietyCode::Artisjus => 9,
            SocietyCode::Ascap => 10,
            SocietyCode::AustroMechana => 11,
            SocietyCode::Amcos => 12,
            SocietyCode::Awa => 13,
            SocietyCode::Argentores => 14,
            SocietyCode::Apa => 15,
            SocietyCode::Bumda => 16,
            SocietyCode::Amra => 17,
            SocietyCode::Bgda => 18,
            SocietyCode::Bmda => 19,
            SocietyCode::Sodrac => 20,
            SocietyCode::Bmi => 21,
            SocietyCode::Mcsn => 22,
            SocietyCode::Buma => 23,
            SocietyCode::Burida => 24,
            SocietyCode::Bsda => 25,
            SocietyCode::Cash => 26,
            SocietyCode::Capac => 27,
            SocietyCode::Lita => 28,
            SocietyCode::Scd => 29,
            SocietyCode::Amar => 30,
            SocietyCode::Dilia => 31,
            SocietyCode::Filscap => 32,
            SocietyCode::Omda => 33,
            SocietyCode::HarryFoxAgency => 34,
            SocietyCode::Gema => 35,
            SocietyCode::Iprs => 36,
            SocietyCode::Bubedra => 37,
            SocietyCode::Jasrac => 38,
            SocietyCode::Musicautor => 39,
            SocietyCode::Koda => 40,
            SocietyCode::LiterarMechana => 41,
            SocietyCode::Lvg => 42,
            SocietyCode::Mcsk => 43,
            SocietyCode::Mcps => 44,
            SocietyCode::Bbda => 45,
            SocietyCode::Mrs => 46,
            SocietyCode::Bcda => 47,
            SocietyCode::Ncb => 48,
            SocietyCode::Onda => 49,
            SocietyCode::Osa => 50,
            SocietyCode::Prolitteris => 51,
            SocietyCode::Prs => 52,
            SocietyCode::Procan => 53,
            SocietyCode::Alcs => 54,
            SocietyCode::Sabam => 55,
            SocietyCode::Sacd => 56,
            SocietyCode::Sacerau => 57,
            SocietyCode::Sacem => 58,
            SocietyCode::Sacm => 59,
            SocietyCode::Sacven => 60,
            SocietyCode::Sadaic => 61,
            SocietyCode::Sadembra => 62,
            SocietyCode::Samro => 63,
            SocietyCode::Sokoj => 64,
            SocietyCode::Sayce => 65,
            SocietyCode::Sbacem => 66,
            SocietyCode::Sbat => 67,
            SocietyCode::Sdrm => 68,
            SocietyCode::Spa => 69,
            SocietyCode::Sogem => 70,
            SocietyCode::Sesac => 71,
            SocietyCode::Sgae => 72,
            SocietyCode::Scam => 73,
            SocietyCode::Siae => 74,
            SocietyCode::Suissimage => 75,
            SocietyCode::Acemla => 76,
            SocietyCode::Stef => 77,
            SocietyCode::Stemra => 78,
            SocietyCode::Stim => 79,
            SocietyCode::Suisa => 80,
            SocietyCode::Sarral => 81,
            SocietyCode::Otpda => 82,
            SocietyCode::Soneca => 83,
            SocietyCode::Sayco => 84,
            SocietyCode::Soza => 85,
            SocietyCode::Sicam => 86,
            SocietyCode::Spacemf => 87,
            SocietyCode::Cmrra => 88,
            SocietyCode::Teosto => 89,
            SocietyCode::Tono => 90,
            SocietyCode::Ssa => 91,
            SocietyCode::Socinada => 92,
            SocietyCode::Ubc => 93,
            SocietyCode::Rao => 94,
            SocietyCode::Vgwort => 95,
            SocietyCode::Cott => 96,
            SocietyCode::Zaiks => 97,
            SocietyCode::Zimra => 98,
            SocietyCode::Ns => 99,
            SocietyCode::Socan => 101,
            SocietyCode::Nascam => 102,
            SocietyCode::Acdam => 103,
            SocietyCode::Macp => 104,
            SocietyCode::Masa => 105,
            SocietyCode::Compass => 106,
            SocietyCode::Acam => 107,
            SocietyCode::Cha => 108,
            SocietyCode::Kci => 109,
            SocietyCode::LatgaA => 110,
            SocietyCode::HdsZamp => 111,
            SocietyCode::Sazas => 112,
            SocietyCode::Laa => 113,
            SocietyCode::Agayc => 114,
            SocietyCode::UcmrAda => 115,
            SocietyCode::Eau => 116,
            SocietyCode::Mesam => 117,
            SocietyCode::Komca => 118,
            SocietyCode::Mcsc => 119,
            SocietyCode::Lira => 120,
            SocietyCode::Vdfs => 121,
            SocietyCode::AkkaLaa => 122,
            SocietyCode::Cosga => 123,
            SocietyCode::Cosoma => 124,
            SocietyCode::Bnda => 125,
            SocietyCode::Mct => 126,
            SocietyCode::Albautor => 127,
            SocietyCode::Imro => 128,
            SocietyCode::Sobodaycom => 129,
            SocietyCode::Butodra => 130,
            SocietyCode::Sada => 131,
            SocietyCode::BildKunst => 132,
            SocietyCode::Zamcops => 133,
            SocietyCode::Slprs => 134,
            SocietyCode::Sadh => 135,
            SocietyCode::ZampMacedonia => 136,
            SocietyCode::Sofam => 137,
            SocietyCode::Kopiosto => 138,
            SocietyCode::CopyDanBilledkunst => 139,
            SocietyCode::Uacrr => 140,
            SocietyCode::AtnLegacy => 141,
            SocietyCode::Dalro => 142,
            SocietyCode::Teaterautor => 143,
            SocietyCode::Haa => 144,
            SocietyCode::Dprs => 145,
            SocietyCode::Spac => 146,
            SocietyCode::Filmautor => 147,
            SocietyCode::Adagp => 148,
            SocietyCode::Ars => 149,
            SocietyCode::Beeldrecht => 150,
            SocietyCode::Bono => 151,
            SocietyCode::Bus => 152,
            SocietyCode::Dacs => 153,
            SocietyCode::Hungart => 154,
            SocietyCode::Somaap => 155,
            SocietyCode::Vaga => 156,
            SocietyCode::Vbk => 157,
            SocietyCode::Vegap => 158,
            SocietyCode::Viscopy => 159,
            SocietyCode::Rupis => 160,
            SocietyCode::Must => 161,
            SocietyCode::Ampal => 162,
            SocietyCode::ApgJapan => 163,
            SocietyCode::Apsav => 164,
            SocietyCode::Atn => 165,
            SocietyCode::Autorarte => 166,
            SocietyCode::Burafo => 167,
            SocietyCode::Cal => 168,
            SocietyCode::Coscap => 169,
            SocietyCode::Cpsn => 170,
            SocietyCode::Creaimagen => 171,
            SocietyCode::Dga => 172,
            SocietyCode::Directores => 173,
            SocietyCode::FlimJus => 174,
            SocietyCode::Copyro => 175,
            SocietyCode::Jacap => 176,
            SocietyCode::Kazak => 177,
            SocietyCode::Kosa => 178,
            SocietyCode::Kuvasto => 179,
            SocietyCode::Musikedition => 180,
            SocietyCode::Nmpa => 181,
            SocietyCode::Pappri => 182,
            SocietyCode::Sack => 183,
            SocietyCode::Sartec => 184,
            SocietyCode::Sesam => 185,
            SocietyCode::Sgdl => 186,
            SocietyCode::Snac => 187,
            SocietyCode::SocieteDeLimage => 188,
            SocietyCode::Socinpro => 189,
            SocietyCode::Sope => 190,
            SocietyCode::Spacq => 191,
            SocietyCode::Sff => 192,
            SocietyCode::TheSocietyOfAuthors => 193,
            SocietyCode::UfficioLegale => 194,
            SocietyCode::Vevam => 195,
            SocietyCode::Wga => 196,
            SocietyCode::Wgj => 197,
            SocietyCode::ZampSlovenia => 198,
            SocietyCode::Zapa => 199,
            SocietyCode::Msg => 200,
            SocietyCode::Abramus => 201,
            SocietyCode::Asdac => 202,
            SocietyCode::Awgacs => 203,
            SocietyCode::Sas => 204,
            SocietyCode::Sodart => 205,
            SocietyCode::SuomenKirjailijaliitto => 206,
            SocietyCode::TheAuthorsRegistryInc => 207,
            SocietyCode::Sga => 208,
            SocietyCode::Armauthor => 209,
            SocietyCode::Access => 210,
            SocietyCode::Cscs => 212,
            SocietyCode::Drcc => 213,
            SocietyCode::Hms => 214,
            SocietyCode::Kyrgyzpatent => 215,
            SocietyCode::Sqn => 216,
            SocietyCode::Abrac => 217,
            SocietyCode::Anacim => 218,
            SocietyCode::Assim => 219,
            SocietyCode::Atida => 220,
            SocietyCode::Sabem => 221,
            SocietyCode::Fonoperu => 222,
            SocietyCode::Cosota => 223,
            SocietyCode::Somas => 224,
            SocietyCode::Saif => 225,
            SocietyCode::Aacimh => 226,
            SocietyCode::Sgacedom => 227,
            SocietyCode::Roms => 228,
            SocietyCode::Icg => 229,
            SocietyCode::Adavis => 230,
            SocietyCode::Autvis => 231,
            SocietyCode::Gestor => 232,
            SocietyCode::Sacemluxembourg => 233,
            SocietyCode::Ucoso => 234,
            SocietyCode::Sacenc => 235,
            SocietyCode::WidCentre => 300,
            SocietyCode::Gesac => 301,
            SocietyCode::Latinautor => 302,
            SocietyCode::NordDoc => 303,
            SocietyCode::Songcode => 304,
            SocietyCode::Imjv => 305,
            SocietyCode::Ccl => 306,
            SocietyCode::Misasia => 307,
            SocietyCode::Ecad => 308,
            SocietyCode::Latinnet => 309,
            SocietyCode::Diva => 310,
            SocietyCode::MusicMark => 707,
        }
    }

    /// The value that carries the numeric code `n`, or `None` when no value does.
    pub fn from_code(n: u16) -> (r: Option<Self>)
        ensures
            r == Self::spec_from_code(n),
    {
        match n {
            0 => Some(SocietyCode::Dp),
            1 => Some(SocietyCode::Acum),
            2 => Some(SocietyCode::Addaf),
            3 => Some(SocietyCode::Aepi),
            4 => Some(SocietyCode::Agadu),
            5 => Some(SocietyCode::Akm),
            6 => Some(SocietyCode::Bucuda),
            7 => Some(SocietyCode::Apdayc),
            8 => Some(SocietyCode::Apra),
            9 => Some(SocietyCode::Artisjus),
            10 => Some(SocietyCode::Ascap),
            11 => Some(SocietyCode::AustroMechana),
            12 => Some(SocietyCode::Amcos),
            13 => Some(SocietyCode::Awa),
            14 => Some(SocietyCode::Argentores),
            15 => Some(SocietyCode::Apa),
            16 => Some(SocietyCode::Bumda),
            17 => Some(SocietyCode::Amra),
            18 => Some(SocietyCode::Bgda),
            19 => Some(SocietyCode::Bmda),
            20 => Some(SocietyCode::Sodrac),
            21 => Some(SocietyCode::Bmi),
            22 => Some(SocietyCode::Mcsn),
            23 => Some(SocietyCode::Buma),
            24 => Some(SocietyCode::Burida),
            25 => Some(SocietyCode::Bsda),
            26 => Some(SocietyCode::Cash),
            27 => Some(SocietyCode::Capac),
            28 => Some(SocietyCode::Lita),
            29 => Some(SocietyCode::Scd),
            30 => Some(SocietyCode::Amar),
            31 => Some(SocietyCode::Dilia),
            32 => Some(SocietyCode::Filscap),
            33 => Some(SocietyCode::Omda),
            34 => Some(SocietyCode::HarryFoxAgency),
            35 => Some(SocietyCode::Gema),
            36 => Some(SocietyCode::Iprs),
            37 => Some(SocietyCode::Bubedra),
            38 => Some(SocietyCode::Jasrac),
            39 => Some(SocietyCode::Musicautor),
            40 => Some(SocietyCode::Koda),
            41 => Some(SocietyCode::LiterarMechana),
            42 => Some(SocietyCode::Lvg),
            43 => Some(SocietyCode::Mcsk),
            44 => Some(SocietyCode::Mcps),
            45 => Some(SocietyCode::Bbda),
            46 => Some(SocietyCode::Mrs),
            47 => Some(SocietyCode::Bcda),
            48 => Some(SocietyCode::Ncb),
            49 => Some(SocietyCode::Onda),
            50 => Some(SocietyCode::Osa),
            51 => Some(SocietyCode::Prolitteris),
            52 => Some(SocietyCode::Prs),
            53 => Some(SocietyCode::Procan),
            54 => Some(SocietyCode::Alcs),
            55 => Some(SocietyCode::Sabam),
            56 => Some(SocietyCode::Sacd),
            57 => Some(SocietyCode::Sacerau),
            58 => Some(SocietyCode::Sacem),
            59 => Some(SocietyCode::Sacm),
            60 => Some(SocietyCode::Sacven),
            61 => Some(SocietyCode::Sadaic),
            62 => Some(SocietyCode::Sadembra),
            63 => Some(SocietyCode::Samro),
            64 => Some(SocietyCode::Sokoj),
            65 => Some(SocietyCode::Sayce),
            66 => Some(SocietyCode::Sbacem),
            67 => Some(SocietyCode::Sbat),
            68 => Some(SocietyCode::Sdrm),
            69 => Some(SocietyCode::Spa),
            70 => Some(SocietyCode::Sogem),
            71 => Some(SocietyCode::Sesac),
            72 => Some(SocietyCode::Sgae),
            73 => Some(SocietyCode::Scam),
            74 => Some(SocietyCode::Siae),
            75 => Some(SocietyCode::Suissimage),
            76 => Some(SocietyCode::Acemla),
            77 => Some(SocietyCode::Stef),
            78 => Some(SocietyCode::Stemra),
            79 => Some(SocietyCode::Stim),
            80 => Some(SocietyCode::Suisa),
            81 => Some(SocietyCode::Sarral),
            82 => Some(SocietyCode::Otpda),
            83 => Some(SocietyCode::Soneca),
            84 => Some(SocietyCode::Sayco),
            85 => Some(SocietyCode::Soza),
            86 => Some(SocietyCode::Sicam),
            87 => Some(SocietyCode::Spacemf),
            88 => Some(SocietyCode::Cmrra),
            89 => Some(SocietyCode::Teosto),
            90 => Some(SocietyCode::Tono),
            91 => Some(SocietyCode::Ssa),
            92 => Some(SocietyCode::Socinada),
            93 => Some(SocietyCode::Ubc),
            94 => Some(SocietyCode::Rao),
            95 => Some(SocietyCode::Vgwort),
            96 => Some(SocietyCode::Cott),
            97 => Some(SocietyCode::Zaiks),
            98 => Some(SocietyCode::Zimra),
            99 => Some(SocietyCode::Ns),
            101 => Some(SocietyCode::Socan),
            102 => Some(SocietyCode::Nascam),
            103 => Some(SocietyCode::Acdam),
            104 => Some(SocietyCode::Macp),
            105 => Some(SocietyCode::Masa),
            106 => Some(SocietyCode::Compass),
            107 => Some(SocietyCode::Acam),
            108 => Some(SocietyCode::Cha),
            109 => Some(SocietyCode::Kci),
            110 => Some(SocietyCode::LatgaA),
            111 => Some(SocietyCode::HdsZamp),
            112 => Some(SocietyCode::Sazas),
            113 => Some(SocietyCode::Laa),
            114 => Some(SocietyCode::Agayc),
            115 => Some(SocietyCode::UcmrAda),
            116 => Some(SocietyCode::Eau),
            117 => Some(SocietyCode::Mesam),
            118 => Some(SocietyCode::Komca),
            119 => Some(SocietyCode::Mcsc),
            120 => Some(SocietyCode::Lira),
            121 => Some(SocietyCode::Vdfs),
            122 => Some(SocietyCode::AkkaLaa),
            123 => Some(SocietyCode::Cosga),
            124 => Some(SocietyCode::Cosoma),
            125 => Some(SocietyCode::Bnda),
            126 => Some(SocietyCode::Mct),
            127 => Some(SocietyCode::Albautor),
            128 => Some(SocietyCode::Imro),
            129 => Some(SocietyCode::Sobodaycom),
            130 => Some(SocietyCode::Butodra),
            131 => Some(SocietyCode::Sada),
            132 => Some(SocietyCode::BildKunst),
            133 => Some(SocietyCode::Zamcops),
            134 => Some(SocietyCode::Slprs),
            135 => Some(SocietyCode::Sadh),
            136 => Some(SocietyCode::ZampMacedonia),
            137 => Some(SocietyCode::Sofam),
            138 => Some(SocietyCode::Kopiosto),
            139 => Some(SocietyCode::CopyDanBilledkunst),
            140 => Some(SocietyCode::Uacrr),
            141 => Some(SocietyCode::AtnLegacy),
            142 => Some(SocietyCode::Dalro),
            143 => Some(SocietyCode::Teaterautor),
            144 => Some(SocietyCode::Haa),
            145 => Some(SocietyCode::Dprs),
            146 => Some(SocietyCode::Spac),
            147 => Some(SocietyCode::Filmautor),
            148 => Some(SocietyCode::Adagp),
            149 => Some(SocietyCode::Ars),
            150 => Some(SocietyCode::Beeldrecht),
            151 => Some(SocietyCode::Bono),
            152 => Some(SocietyCode::Bus),
            153 => Some(SocietyCode::Dacs),
            154 => Some(SocietyCode::Hungart),
            155 => Some(SocietyCode::Somaap),
            156 => Some(SocietyCode::Vaga),
            157 => Some(SocietyCode::Vbk),
            158 => Some(SocietyCode::Vegap),
            159 => Some(SocietyCode::Viscopy),
            160 => Some(SocietyCode::Rupis),
            161 => Some(SocietyCode::Must),
            162 => Some(SocietyCode::Ampal),
            163 => Some(SocietyCode::ApgJapan),
            164 => Some(SocietyCode::Apsav),
            165 => Some(SocietyCode::Atn),
            166 => Some(SocietyCode::Autorarte),
            167 => Some(SocietyCode::Burafo),
            168 => Some(SocietyCode::Cal),
            169 => Some(SocietyCode::Coscap),
            170 => Some(SocietyCode::Cpsn),
            171 => Some(SocietyCode::Creaimagen),
            172 => Some(SocietyCode::Dga),
            173 => Some(SocietyCode::Directores),
            174 => Some(SocietyCode::FlimJus),
            175 => Some(SocietyCode::Copyro),
            176 => Some(SocietyCode::Jacap),
            177 => Some(SocietyCode::Kazak),
            178 => Some(SocietyCode::Kosa),
            179 => Some(SocietyCode::Kuvasto),
            180 => Some(SocietyCode::Musikedition),
            181 => Some(SocietyCode::Nmpa),
            182 => Some(SocietyCode::Pappri),
            183 => Some(SocietyCode::Sack),
            184 => Some(SocietyCode::Sartec),
            185 => Some(SocietyCode::Sesam),
            186 => Some(SocietyCode::Sgdl),
            187 => Some(SocietyCode::Snac),
            188 => Some(SocietyCode::SocieteDeLimage),
            189 => Some(SocietyCode::Socinpro),
            190 => Some(SocietyCode::Sope),
            191 => Some(SocietyCode::Spacq),
            192 => Some(SocietyCode::Sff),
            193 => Some(SocietyCode::TheSocietyOfAuthors),
            194 => Some(SocietyCode::UfficioLegale),
            195 => Some(SocietyCode::Vevam),
            196 => Some(SocietyCode::Wga),
            197 => Some(SocietyCode::Wgj),
            198 => Some(SocietyCode::ZampSlovenia),
            199 => Some(SocietyCode::Zapa),
            200 => Some(SocietyCode::Msg),
            201 => Some(SocietyCode::Abramus),
            202 => Some(SocietyCode::Asdac),
            203 => Some(SocietyCode::Awgacs),
            204 => Some(SocietyCode::Sas),
            205 => Some(SocietyCode::Sodart),
            206 => Some(SocietyCode::SuomenKirjailijaliitto),
            207 => Some(SocietyCode::TheAuthorsRegistryInc),
            208 => Some(SocietyCode::Sga),
            209 => Some(SocietyCode::Armauthor),
            210 => Some(SocietyCode::Access),
            212 => Some(SocietyCode::Cscs),
            213 => Some(SocietyCode::Drcc),
            214 => Some(SocietyCode::Hms),
            215 => Some(SocietyCode::Kyrgyzpatent),
            216 => Some(SocietyCode::Sqn),
            217 => Some(SocietyCode::Abrac),
            218 => Some(SocietyCode::Anacim),
            219 => Some(SocietyCode::Assim),
            220 => Some(SocietyCode::Atida),
            221 => Some(SocietyCode::Sabem),
            222 => Some(SocietyCode::Fonoperu),
            223 => Some(SocietyCode::Cosota),
            224 => Some(SocietyCode::Somas),
            225 => Some(SocietyCode::Saif),
            226 => Some(SocietyCode::Aacimh),
            227 => Some(SocietyCode::Sgacedom),
            228 => Some(SocietyCode::Roms),
            229 => Some(SocietyCode::Icg),
            230 => Some(SocietyCode::Adavis),
            231 => Some(SocietyCode::Autvis),
            232 => Some(SocietyCode::Gestor),
            233 => Some(SocietyCode::Sacemluxembourg),
            234 => Some(SocietyCode::Ucoso),
            235 => Some(SocietyCode::Sacenc),
            300 => Some(SocietyCode::WidCentre),
            301 => Some(SocietyCode::Gesac),
            302 => Some(SocietyCode::Latinautor),
            303 => Some(SocietyCode::NordDoc),
            304 => Some(SocietyCode::Songcode),
            305 => Some(SocietyCode::Imjv),
            306 => Some(SocietyCode::Ccl),
            307 => Some(SocietyCode::Misasia),
            308 => Some(SocietyCode::Ecad),
            309 => Some(SocietyCode::Latinnet),
            310 => Some(SocietyCode::Diva),
            707 => Some(SocietyCode::MusicMark),
            _ => None,
        }
    }
}
/// A country of the CISAC Territory Information System, by its territory code.
#[derive(Debug, Clone, Copy, PartialEq, Eq, Structural)]
pub enum CountryCode {
    Afghanistan,
    Albania,
    Algeria,
    Andorra,
    Angola,
    AntiguaAndBarbuda,
    Azerbaijan,
    Argentina,
    Australia,
    Austria,
    Bahamas,
    Bahrain,
    Bangladesh,
    Armenia,
    Barbados,
    Belgium,
    Bhutan,
    Bolivia,
    BosniaAndHerzegovina,
    Botswana,
    Brazil,
    Belize,
    SolomonIslands,
    BruneiDarussalam,
    Bulgaria,
    Myanmar,
    Burundi,
    Belarus,
    Cambodia,
    Cameroon,
    Canada,
    CapeVerde,
    CentralAfricanRepublic,
    SriLanka,
    Chad,
    Chile,
    China,
    TaiwanProvinceOfChina,
    Colombia,
    Comoros,
    Congo,
    Zaire,
    CostaRica,
    Croatia,
    Cuba,
    Cyprus,
    CzechRepublic,
    Benin,
    Denmark,
    Dominica,
    DominicanRepublic,
    Ecuador,
    ElSalvador,
    EquatorialGuinea,
    Ethiopia,
    Eritrea,
    Estonia,
    Fiji,
    Finland,
    France,
    FrenchPolynesia,
    Djibouti,
    Gabon,
    Georgia,
    Gambia,
    Germany,
    Ghana,
    Kiribati,
    Greece,
    Grenada,
    Guatemala,
    Guinea,
    Guyana,
    Haiti,
    HolySeeVaticanCityState,
    Honduras,
    HongKong,
    Hungary,
    Iceland,
    India,
    Indonesia,
    IranIslamicRepublicOf,
    Iraq,
    Ireland,
    Israel,
    Italy,
    CoteDIvoire,
    Jamaica,
    Japan,
    Kazakhstan,
    Jordan,
    Kenya,
    KoreaDemocraticPeoplesRepublicOf,
    KoreaRepublicOf,
    Kuwait,
    Kyrgyzstan,
    LaoPeoplesDemocraticRepublic,
    Lebanon,
    Lesotho,
    Latvia,
    Liberia,
    LibyanArabJamahiriya,
    Liechtenstein,
    Lithuania,
    Luxembourg,
    Macao,
    Madagascar,
    Malawi,
    Malaysia,
    Maldives,
    Mali,
    Malta,
    Mauritania,
    Mauritius,
    Mexico,
    Monaco,
    Mongolia,
    MoldovaRepublicOf,
    Montenegro,
    Morocco,
    Mozambique,
    Oman,
    Namibia,
    Nauru,
    Nepal,
    Netherlands,
    NewCaledonia,
    Vanuatu,
    NewZealand,
    Nicaragua,
    Niger,
    Nigeria,
    Norway,
    MicronesiaFederatedStatesOf,
    MarshallIslands,
    Palau,
    Pakistan,
    Panama,
    PapuaNewGuinea,
    Paraguay,
    Peru,
    Philippines,
    Poland,
    Portugal,
    GuineaBissau,
    TimorLeste,
    PuertoRico,
    Qatar,
    Romania,
    RussianFederation,
    Rwanda,
    SaintKittsAndNevis,
    SaintLucia,
    SaintVincentAndTheGrenadines,
    SanMarino,
    SaoTomeAndPrincipe,
    SaudiArabia,
    Senegal,
    Serbia,
    Seychelles,
    SierraLeone,
    Singapore,
    Slovakia,
    Vietnam,
    Slovenia,
    Somalia,
    SouthAfrica,
    Zimbabwe,
    Spain,
    SouthSudan,
    Sudan,
    WesternSahara,
    Suriname,
    Swaziland,
    Sweden,
    Switzerland,
    SyrianArabRepublic,
    Tajikistan,
    Thailand,
    Togo,
    Tonga,
    TrinidadAndTobago,
    UnitedArabEmirates,
    Tunisia,
    Turkey,
    Turkmenistan,
    Tuvalu,
    Uganda,
    Ukraine,
    MacedoniaTheFormerYugoslavRepublicOf,
    Egypt,
    UnitedKingdom,
    TanzaniaUnitedRepublicOf,
    UnitedStates,
    BurkinaFaso,
    Uruguay,
    Uzbekistan,
    Venezuela,
    Samoa,
    Yemen,
    Zambia,
}

impl CountryCode {
    /// The numeric code of each CountryCode value.
    pub open spec fn spec_code(self) -> u16 {
        match self {
            CountryCode::Afghanistan => 4,
            CountryCode::Albania => 8,
            CountryCode::Algeria => 12,
            CountryCode::Andorra => 20,
            CountryCode::Angola => 24,
            CountryCode::AntiguaAndBarbuda => 28,
            CountryCode::Azerbaijan => 31,
            CountryCode::Argentina => 32,
            CountryCode::Australia => 36,
            CountryCode::Austria => 40,
            CountryCode::Bahamas => 44,
            CountryCode::Bahrain => 48,
            CountryCode::Bangladesh => 50,
            CountryCode::Armenia => 51,
            CountryCode::Barbados => 52,
            CountryCode::Belgium => 56,
            CountryCode::Bhutan => 64,
            CountryCode::Bolivia => 68,
            CountryCode::BosniaAndHerzegovina => 70,
            CountryCode::Botswana => 72,
            CountryCode::Brazil => 76,
            CountryCode::Belize => 84,
            CountryCode::SolomonIslands => 90,
            CountryCode::BruneiDarussalam => 96,
            CountryCode::Bulgaria => 100,
            CountryCode::Myanmar => 104,
            CountryCode::Burundi => 108,
            CountryCode::Belarus => 112,
            CountryCode::Cambodia => 116,
            CountryCode::Cameroon => 120,
            CountryCode::Canada => 124,
            CountryCode::CapeVerde => 132,
            CountryCode::CentralAfricanRepublic => 140,
            CountryCode::SriLanka => 144,
            CountryCode::Chad => 148,
            CountryCode::Chile => 152,
            CountryCode::China => 156,
            CountryCode::TaiwanProvinceOfChina => 158,
            CountryCode::Colombia => 170,
            CountryCode::Comoros => 174,
            CountryCode::Congo => 178,
            CountryCode::Zaire => 180,
            CountryCode::CostaRica => 188,
            CountryCode::Croatia => 191,
            CountryCode::Cuba => 192,
            CountryCode::Cyprus => 196,
            CountryCode::CzechRepublic => 203,
            CountryCode::Benin => 204,
            CountryCode::Denmark => 208,
            CountryCode::Dominica => 212,
            CountryCode::DominicanRepublic => 214,
            CountryCode::Ecuador => 218,
            CountryCode::ElSalvador => 222,
            CountryCode::EquatorialGuinea => 226,
            CountryCode::Ethiopia => 231,
            CountryCode::Eritrea => 232,
            CountryCode::Estonia => 233,
            CountryCode::Fiji => 242,
            CountryCode::Finland => 246,
            CountryCode::France => 250,
            CountryCode::FrenchPolynesia => 258,
            CountryCode::Djibouti => 262,
            CountryCode::Gabon => 266,
            CountryCode::Georgia => 268,
            CountryCode::Gambia => 270,
            CountryCode::Germany => 276,
            CountryCode::Ghana => 288,
            CountryCode::Kiribati => 296,
            CountryCode::Greece => 300,
            CountryCode::Grenada => 308,
            CountryCode::Guatemala => 320,
            CountryCode::Guinea => 324,
            CountryCode::Guyana => 328,
            CountryCode::Haiti => 332,
            CountryCode::HolySeeVaticanCityState => 336,
            CountryCode::Honduras => 340,
            CountryCode::HongKong => 344,
            CountryCode::Hungary => 348,
            CountryCode::Iceland => 352,
            CountryCode::India => 356,
            CountryCode::Indonesia => 360,
            CountryCode::IranIslamicRepublicOf => 364,
            CountryCode::Iraq => 368,
            CountryCode::Ireland => 372,
            CountryCode::Israel => 376,
            CountryCode::Italy => 380,
            CountryCode::CoteDIvoire => 384,
            CountryCode::Jamaica => 388,
            CountryCode::Japan => 392,
            CountryCode::Kazakhstan => 398,
            CountryCode::Jordan => 400,
            CountryCode::Kenya => 404,
            CountryCode::KoreaDemocraticPeoplesRepublicOf => 408,
            CountryCode::KoreaRepublicOf => 410,
            CountryCode::Kuwait => 414,
            CountryCode::Kyrgyzstan => 417,
            CountryCode::LaoPeoplesDemocraticRepublic => 418,
            CountryCode::Lebanon => 422,
            CountryCode::Lesotho => 426,
            CountryCode::Latvia => 428,
            CountryCode::Liberia => 430,
            CountryCode::LibyanArabJamahiriya => 434,
            CountryCode::Liechtenstein => 438,
            CountryCode::Lithuania => 440,
            CountryCode::Luxembourg => 442,
            CountryCode::Macao => 446,
            CountryCode::Madagascar => 450,
            CountryCode::Malawi => 454,
            CountryCode::Malaysia => 458,
            CountryCode::Maldives => 462,
            CountryCode::Mali => 466,
            CountryCode::Malta => 470,
            CountryCode::Mauritania => 478,
            CountryCode::Mauritius => 480,
            CountryCode::Mexico => 484,
            CountryCode::Monaco => 492,
            CountryCode::Mongolia => 496,
            CountryCode::MoldovaRepublicOf => 498,
            CountryCode::Montenegro => 499,
            CountryCode::Morocco => 504,
            CountryCode::Mozambique => 508,
            CountryCode::Oman => 512,
            CountryCode::Namibia => 516,
            CountryCode::Nauru => 520,
            CountryCode::Nepal => 524,
            CountryCode::Netherlands => 528,
            CountryCode::NewCaledonia => 540,
            CountryCode::Vanuatu => 548,
            CountryCode::NewZealand => 554,
            CountryCode::Nicaragua => 558,
            CountryCode::Niger => 562,
            CountryCode::Nigeria => 566,
            CountryCode::Norway => 578,
            CountryCode::MicronesiaFederatedStatesOf => 583,
            CountryCode::MarshallIslands => 584,
            CountryCode::Palau => 585,
            CountryCode::Pakistan => 586,
            CountryCode::Panama => 591,
            CountryCode::PapuaNewGuinea => 598,
            CountryCode::Paraguay => 600,
            CountryCode::Peru => 604,
            CountryCode::Philippines => 608,
            CountryCode::Poland => 616,
            CountryCode::Portugal => 620,
            CountryCode::GuineaBissau => 624,
            CountryCode::TimorLeste => 626,
            CountryCode::PuertoRico => 630,
            CountryCode::Qatar => 634,
            CountryCode::Romania => 642,
            CountryCode::RussianFederation => 643,
            CountryCode::Rwanda => 646,
            CountryCode::SaintKittsAndNevis => 659,
            CountryCode::SaintLucia => 662,
            CountryCode::SaintVincentAndTheGrenadines => 670,
            CountryCode::SanMarino => 674,
            CountryCode::SaoTomeAndPrincipe => 678,
            CountryCode::SaudiArabia => 682,
            CountryCode::Senegal => 686,
            CountryCode::Serbia => 688,
            CountryCode::Seychelles => 690,
            CountryCode::SierraLeone => 694,
            CountryCode::Singapore => 702,
            CountryCode::Slovakia => 703,
            CountryCode::Vietnam => 704,
            CountryCode::Slovenia => 705,
            CountryCode::Somalia => 706,
            CountryCode::SouthAfrica => 710,
            CountryCode::Zimbabwe => 716,
            CountryCode::Spain => 724,
            CountryCode::SouthSudan => 728,
            CountryCode::Sudan => 729,
            CountryCode::WesternSahara => 732,
            CountryCode::Suriname => 740,
            CountryCode::Swaziland => 748,
            CountryCode::Sweden => 752,
            CountryCode::Switzerland => 756,
            CountryCode::SyrianArabRepublic => 760,
            CountryCode::Tajikistan => 762,
            CountryCode::Thailand => 764,
            CountryCode::Togo => 768,
            CountryCode::Tonga => 776,
            CountryCode::TrinidadAndTobago => 780,
            CountryCode::UnitedArabEmirates => 784,
            CountryCode::Tunisia => 788,
            CountryCode::Turkey => 792,
            CountryCode::Turkmenistan => 795,
            CountryCode::Tuvalu => 798,
            CountryCode::Uganda => 800,
            CountryCode::Ukraine => 804,
            CountryCode::MacedoniaTheFormerYugoslavRepublicOf => 807,
            CountryCode::Egypt => 818,
            CountryCode::UnitedKingdom => 826,
            CountryCode::TanzaniaUnitedRepublicOf => 834,
            CountryCode::UnitedStates => 840,
            CountryCode::BurkinaFaso => 854,
            CountryCode::Uruguay => 858,
            CountryCode::Uzbekistan => 860,
            CountryCode::Venezuela => 862,
            CountryCode::Samoa => 882,
            CountryCode::Yemen => 887,
            CountryCode::Zambia => 894,
        }
    }

    /// The CountryCode value that carries a numeric code, if any.
    pub open spec fn spec_from_code(n: u16) -> Option<Self> {
        match n {
            4 => Some(CountryCode::Afghanistan),
            8 => Some(CountryCode::Albania),
            12 => Some(CountryCode::Algeria),
            20 => Some(CountryCode::Andorra),
            24 => Some(CountryCode::Angola),
            28 => Some(CountryCode::AntiguaAndBarbuda),
            31 => Some(CountryCode::Azerbaijan),
            32 => Some(CountryCode::Argentina),
            36 => Some(CountryCode::Australia),
            40 => Some(CountryCode::Austria),
            44 => Some(CountryCode::Bahamas),
            48 => Some(CountryCode::Bahrain),
            50 => Some(CountryCode::Bangladesh),
            51 => Some(CountryCode::Armenia),
            52 => Some(CountryCode::Barbados),
            56 => Some(CountryCode::Belgium),
            64 => Some(CountryCode::Bhutan),
            68 => Some(CountryCode::Bolivia),
            70 => Some(CountryCode::BosniaAndHerzegovina),
            72 => Some(CountryCode::Botswana),
            76 => Some(CountryCode::Brazil),
            84 => Some(CountryCode::Belize),
            90 => Some(CountryCode::SolomonIslands),
            96 => Some(CountryCode::BruneiDarussalam),
            100 => Some(CountryCode::Bulgaria),
            104 => Some(CountryCode::Myanmar),
            108 => Some(CountryCode::Burundi),
            112 => Some(CountryCode::Belarus),
            116 => Some(CountryCode::Cambodia),
            120 => Some(CountryCode::Cameroon),
            124 => Some(CountryCode::Canada),
            132 => Some(CountryCode::CapeVerde),
            140 => Some(CountryCode::CentralAfricanRepublic),
            144 => Some(CountryCode::SriLanka),
            148 => Some(CountryCode::Chad),
            152 => Some(CountryCode::Chile),
            156 => Some(CountryCode::China),
            158 => Some(CountryCode::TaiwanProvinceOfChina),
            170 => Some(CountryCode::Colombia),
            174 => Some(CountryCode::Comoros),
            178 => Some(CountryCode::Congo),
            180 => Some(CountryCode::Zaire),
            188 => Some(CountryCode::CostaRica),
            191 => Some(CountryCode::Croatia),
            192 => Some(CountryCode::Cuba),
            196 => Some(CountryCode::Cyprus),
            203 => Some(CountryCode::CzechRepublic),
            204 => Some(CountryCode::Benin),
            208 => Some(CountryCode::Denmark),
            212 => Some(CountryCode::Dominica),
            214 => Some(CountryCode::DominicanRepublic),
            218 => Some(CountryCode::Ecuador),
            222 => Some(CountryCode::ElSalvador),
            226 => Some(CountryCode::EquatorialGuinea),
            231 => Some(CountryCode::Ethiopia),
            232 => Some(CountryCode::Eritrea),
            233 => Some(CountryCode::Estonia),
            242 => Some(CountryCode::Fiji),
            246 => Some(CountryCode::Finland),
            250 => Some(CountryCode::France),
            258 => Some(CountryCode::FrenchPolynesia),
            262 => Some(CountryCode::Djibouti),
            266 => Some(CountryCode::Gabon),
            268 => Some(CountryCode::Georgia),
            270 => Some(CountryCode::Gambia),
            276 => Some(CountryCode::Germany),
            288 => Some(CountryCode::Ghana),
            296 => Some(CountryCode::Kiribati),
            300 => Some(CountryCode::Greece),
            308 => Some(CountryCode::Grenada),
            320 => Some(CountryCode::Guatemala),
            324 => Some(CountryCode::Guinea),
            328 => Some(CountryCode::Guyana),
            332 => Some(CountryCode::Haiti),
            336 => Some(CountryCode::HolySeeVaticanCityState),
            340 => Some(CountryCode::Honduras),
            344 => Some(CountryCode::HongKong),
            348 => Some(CountryCode::Hungary),
            352 => Some(CountryCode::Iceland),
            356 => Some(CountryCode::India),
            360 => Some(CountryCode::Indonesia),
            364 => Some(CountryCode::IranIslamicRepublicOf),
            368 => Some(CountryCode::Iraq),
            372 => Some(CountryCode::Ireland),
            376 => Some(CountryCode::Israel),
            380 => Some(CountryCode::Italy),
            384 => Some(CountryCode::CoteDIvoire),
            388 => Some(CountryCode::Jamaica),
            392 => Some(CountryCode::Japan),
            398 => Some(CountryCode::Kazakhstan),
            400 => Some(CountryCode::Jordan),
            404 => Some(CountryCode::Kenya),
            408 => Some(CountryCode::KoreaDemocraticPeoplesRepublicOf),
            410 => Some(CountryCode::KoreaRepublicOf),
            414 => Some(CountryCode::Kuwait),
            417 => Some(CountryCode::Kyrgyzstan),
            418 => Some(CountryCode::LaoPeoplesDemocraticRepublic),
            422 => Some(CountryCode::Lebanon),
            426 => Some(CountryCode::Lesotho),
            428 => Some(CountryCode::Latvia),
            430 => Some(CountryCode::Liberia),
            434 => Some(CountryCode::LibyanArabJamahiriya),
            438 => Some(CountryCode::Liechtenstein),
            440 => Some(CountryCode::Lithuania),
            442 => Some(CountryCode::Luxembourg),
            446 => Some(CountryCode::Macao),
            450 => Some(CountryCode::Madagascar),
            454 => Some(CountryCode::Malawi),
            458 => Some(CountryCode::Malaysia),
            462 => Some(CountryCode::Maldives),
            466 => Some(CountryCode::Mali),
            470 => Some(CountryCode::Malta),
            478 => Some(CountryCode::Mauritania),
            480 => Some(CountryCode::Mauritius),
            484 => Some(CountryCode::Mexico),
            492 => Some(CountryCode::Monaco),
            496 => Some(CountryCode::Mongolia),
            498 => Some(CountryCode::MoldovaRepublicOf),
            499 => Some(CountryCode::Montenegro),
            504 => Some(CountryCode::Morocco),
            508 => Some(CountryCode::Mozambique),
            512 => Some(CountryCode::Oman),
            516 => Some(CountryCode::Namibia),
            520 => Some(CountryCode::Nauru),
            524 => Some(CountryCode::Nepal),
            528 => Some(CountryCode::Netherlands),
            540 => Some(CountryCode::NewCaledonia),
            548 => Some(CountryCode::Vanuatu),
            554 => Some(CountryCode::NewZealand),
            558 => Some(CountryCode::Nicaragua),
            562 => Some(CountryCode::Niger),
            566 => Some(CountryCode::Nigeria),
            578 => Some(CountryCode::Norway),
            583 => Some(CountryCode::MicronesiaFederatedStatesOf),
            584 => Some(CountryCode::MarshallIslands),
            585 => Some(CountryCode::Palau),
            586 => Some(CountryCode::Pakistan),
            591 => Some(CountryCode::Panama),
            598 => Some(CountryCode::PapuaNewGuinea),
            600 => Some(CountryCode::Paraguay),
            604 => Some(CountryCode::Peru),
            608 => Some(CountryCode::Philippines),
            616 => Some(CountryCode::Poland),
            620 => Some(CountryCode::Portugal),
            624 => Some(CountryCode::GuineaBissau),
            626 => Some(CountryCode::TimorLeste),
            630 => Some(CountryCode::PuertoRico),
            634 => Some(CountryCode::Qatar),
            642 => Some(CountryCode::Romania),
            643 => Some(CountryCode::RussianFederation),
            646 => Some(CountryCode::Rwanda),
            659 => Some(CountryCode::SaintKittsAndNevis),
            662 => Some(CountryCode::SaintLucia),
            670 => Some(CountryCode::SaintVincentAndTheGrenadines),
            674 => Some(CountryCode::SanMarino),
            678 => Some(CountryCode::SaoTomeAndPrincipe),
            682 => Some(CountryCode::SaudiArabia),
            686 => Some(CountryCode::Senegal),
            688 => Some(CountryCode::Serbia),
            690 => Some(CountryCode::Seychelles),
            694 => Some(CountryCode::SierraLeone),
            702 => Some(CountryCode::Singapore),
            703 => Some(CountryCode::Slovakia),
            704 => Some(CountryCode::Vietnam),
            705 => Some(CountryCode::Slovenia),
            706 => Some(CountryCode::Somalia),
            710 => Some(CountryCode::SouthAfrica),
            716 => Some(CountryCode::Zimbabwe),
            724 => Some(CountryCode::Spain),
            728 => Some(CountryCode::SouthSudan),
            729 => Some(CountryCode::Sudan),
            732 => Some(CountryCode::WesternSahara),
            740 => Some(CountryCode::Suriname),
            748 => Some(CountryCode::Swaziland),
            752 => Some(CountryCode::Sweden),
            756 => Some(CountryCode::Switzerland),
            760 => Some(CountryCode::SyrianArabRepublic),
            762 => Some(CountryCode::Tajikistan),
            764 => Some(CountryCode::Thailand),
            768 => Some(CountryCode::Togo),
            776 => Some(CountryCode::Tonga),
            780 => Some(CountryCode::TrinidadAndTobago),
            784 => Some(CountryCode::UnitedArabEmirates),
            788 => Some(CountryCode::Tunisia),
            792 => Some(CountryCode::Turkey),
            795 => Some(CountryCode::Turkmenistan),
            798 => Some(CountryCode::Tuvalu),
            800 => Some(CountryCode::Uganda),
            804 => Some(CountryCode::Ukraine),
            807 => Some(CountryCode::MacedoniaTheFormerYugoslavRepublicOf),
            818 => Some(CountryCode::Egypt),
            826 => Some(CountryCode::UnitedKingdom),
            834 => Some(CountryCode::TanzaniaUnitedRepublicOf),
            840 => Some(CountryCode::UnitedStates),
            854 => Some(CountryCode::BurkinaFaso),
            858 => Some(CountryCode::Uruguay),
            860 => Some(CountryCode::Uzbekistan),
            862 => Some(CountryCode::Venezuela),
            882 => Some(CountryCode::Samoa),
            887 => Some(CountryCode::Yemen),
            894 => Some(CountryCode::Zambia),
            _ => None,
        }
    }

    /// The numeric code of this value.
    pub fn code(&self) -> (r: u16)
        ensures
            r == self.spec_code(),
    {
        match self {
            CountryCode::Afghanistan => 4,
            CountryCode::Albania => 8,
            CountryCode::Algeria => 12,
            CountryCode::Andorra => 20,
            CountryCode::Angola => 24,
            CountryCode::AntiguaAndBarbuda => 28,
            CountryCode::Azerbaijan => 31,
            CountryCode::Argentina => 32,
            CountryCode::Australia => 36,
            CountryCode::Austria => 40,
            CountryCode::Bahamas => 44,
            CountryCode::Bahrain => 48,
            CountryCode::Bangladesh => 50,
            CountryCode::Armenia => 51,
            CountryCode::Barbados => 52,
            CountryCode::Belgium => 56,
            CountryCode::Bhutan => 64,
            CountryCode::Bolivia => 68,
            CountryCode::BosniaAndHerzegovina => 70,
            CountryCode::Botswana => 72,
            CountryCode::Brazil => 76,
            CountryCode::Belize => 84,
            CountryCode::SolomonIslands => 90,
            CountryCode::BruneiDarussalam => 96,
            CountryCode::Bulgaria => 100,
            CountryCode::Myanmar => 104,
            CountryCode::Burundi => 108,
            CountryCode::Belarus => 112,
            CountryCode::Cambodia => 116,
            CountryCode::Cameroon => 120,
            CountryCode::Canada => 124,
            CountryCode::CapeVerde => 132,
            CountryCode::CentralAfricanRepublic => 140,
            CountryCode::SriLanka => 144,
            CountryCode::Chad => 148,
            CountryCode::Chile => 152,
            CountryCode::China => 156,
            CountryCode::TaiwanProvinceOfChina => 158,
            CountryCode::Colombia => 170,
            CountryCode::Comoros => 174,
            CountryCode::Congo => 178,
            CountryCode::Zaire => 180,
            CountryCode::CostaRica => 188,
            CountryCode::Croatia => 191,
            CountryCode::Cuba => 192,
            CountryCode::Cyprus => 196,
            CountryCode::CzechRepublic => 203,
            CountryCode::Benin => 204,
            CountryCode::Denmark => 208,
            CountryCode::Dominica => 212,
            CountryCode::DominicanRepublic => 214,
            CountryCode::Ecuador => 218,
            CountryCode::ElSalvador => 222,
            CountryCode::EquatorialGuinea => 226,
            CountryCode::Ethiopia => 231,
            CountryCode::Eritrea => 232,
            CountryCode::Estonia => 233,
            CountryCode::Fiji => 242,
            CountryCode::Finland => 246,
            CountryCode::France => 250,
            CountryCode::FrenchPolynesia => 258,
            CountryCode::Djibouti => 262,
            CountryCode::Gabon => 266,
            CountryCode::Georgia => 268,
            CountryCode::Gambia => 270,
            CountryCode::Germany => 276,
            CountryCode::Ghana => 288,
            CountryCode::Kiribati => 296,
            CountryCode::Greece => 300,
            CountryCode::Grenada => 308,
            CountryCode::Guatemala => 320,
            CountryCode::Guinea => 324,
            CountryCode::Guyana => 328,
            CountryCode::Haiti => 332,
            CountryCode::HolySeeVaticanCityState => 336,
            CountryCode::Honduras => 340,
            CountryCode::HongKong => 344,
            CountryCode::Hungary => 348,
            CountryCode::Iceland => 352,
            CountryCode::India => 356,
            CountryCode::Indonesia => 360,
            CountryCode::IranIslamicRepublicOf => 364,
            CountryCode::Iraq => 368,
            CountryCode::Ireland => 372,
            CountryCode::Israel => 376,
            CountryCode::Italy => 380,
            CountryCode::CoteDIvoire => 384,
            CountryCode::Jamaica => 388,
            CountryCode::Japan => 392,
            CountryCode::Kazakhstan => 398,
            CountryCode::Jordan => 400,
            CountryCode::Kenya => 404,
            CountryCode::KoreaDemocraticPeoplesRepublicOf => 408,
            CountryCode::KoreaRepublicOf => 410,
            CountryCode::Kuwait => 414,
            CountryCode::Kyrgyzstan => 417,
            CountryCode::LaoPeoplesDemocraticRepublic => 418,
            CountryCode::Lebanon => 422,
            CountryCode::Lesotho => 426,
            CountryCode::Latvia => 428,
            CountryCode::Liberia => 430,
            CountryCode::LibyanArabJamahiriya => 434,
            CountryCode::Liechtenstein => 438,
            CountryCode::Lithuania => 440,
            CountryCode::Luxembourg => 442,
            CountryCode::Macao => 446,
            CountryCode::Madagascar => 450,
            CountryCode::Malawi => 454,
            CountryCode::Malaysia => 458,
            CountryCode::Maldives => 462,
            CountryCode::Mali => 466,
            CountryCode::Malta => 470,
            CountryCode::Mauritania => 478,
            CountryCode::Mauritius => 480,
            CountryCode::Mexico => 484,
            CountryCode::Monaco => 492,
            CountryCode::Mongolia => 496,
            CountryCode::MoldovaRepublicOf => 498,
            CountryCode::Montenegro => 499,
            CountryCode::Morocco => 504,
            CountryCode::Mozambique => 508,
            CountryCode::Oman => 512,
            CountryCode::Namibia => 516,
            CountryCode::Nauru => 520,
            CountryCode::Nepal => 524,
            CountryCode::Netherlands => 528,
            CountryCode::NewCaledonia => 540,
            CountryCode::Vanuatu => 548,
            CountryCode::NewZealand => 554,
            CountryCode::Nicaragua => 558,
            CountryCode::Niger => 562,
            CountryCode::Nigeria => 566,
            CountryCode::Norway => 578,
            CountryCode::MicronesiaFederatedStatesOf => 583,
            CountryCode::MarshallIslands => 584,
            CountryCode::Palau => 585,
            CountryCode::Pakistan => 586,
            CountryCode::Panama => 591,
            CountryCode::PapuaNewGuinea => 598,
            CountryCode::Paraguay => 600,
            CountryCode::Peru => 604,
            CountryCode::Philippines => 608,
            CountryCode::Poland => 616,
            CountryCode::Portugal => 620,
            CountryCode::GuineaBissau => 624,
            CountryCode::TimorLeste => 626,
            CountryCode::PuertoRico => 630,
            CountryCode::Qatar => 634,
            CountryCode::Romania => 642,
            CountryCode::RussianFederation => 643,
            CountryCode::Rwanda => 646,
            CountryCode::SaintKittsAndNevis => 659,
            CountryCode::SaintLucia => 662,
            CountryCode::SaintVincentAndTheGrenadines => 670,
            CountryCode::SanMarino => 674,
            CountryCode::SaoTomeAndPrincipe => 678,
            CountryCode::SaudiArabia => 682,
            CountryCode::Senegal => 686,
            CountryCode::Serbia => 688,
            CountryCode::Seychelles => 690,
            CountryCode::SierraLeone => 694,
            CountryCode::Singapore => 702,
            CountryCode::Slovakia => 703,
            CountryCode::Vietnam => 704,
            CountryCode::Slovenia => 705,
            CountryCode::Somalia => 706,
            CountryCode::SouthAfrica => 710,
            CountryCode::Zimbabwe => 716,
            CountryCode::Spain => 724,
            CountryCode::SouthSudan => 728,
            CountryCode::Sudan => 729,
            CountryCode::WesternSahara => 732,
            CountryCode::Suriname => 740,
            CountryCode::Swaziland => 748,
            CountryCode::Sweden => 752,
            CountryCode::Switzerland => 756,
            CountryCode::SyrianArabRepublic => 760,
            CountryCode::Tajikistan => 762,
            CountryCode::Thailand => 764,
            CountryCode::Togo => 768,
            CountryCode::Tonga => 776,
            CountryCode::TrinidadAndTobago => 780,
            CountryCode::UnitedArabEmirates => 784,
            CountryCode::Tunisia => 788,
            CountryCode::Turkey => 792,
            CountryCode::Turkmenistan => 795,
            CountryCode::Tuvalu => 798,
            CountryCode::Uganda => 800,
            CountryCode::Ukraine => 804,
            CountryCode::MacedoniaTheFormerYugoslavRepublicOf => 807,
            CountryCode::Egypt => 818,
            CountryCode::UnitedKingdom => 826,
            CountryCode::TanzaniaUnitedRepublicOf => 834,
            CountryCode::UnitedStates => 840,
            CountryCode::BurkinaFaso => 854,
            CountryCode::Uruguay => 858,
            CountryCode::Uzbekistan => 860,
            CountryCode::Venezuela => 862,
            CountryCode::Samoa => 882,
            CountryCode::Yemen => 887,
            CountryCode::Zambia => 894,
        }
    }

    /// The value that carries the numeric code `n`, or `None` when no value does.
    pub fn from_code(n: u16) -> (r: Option<Self>)
        ensures
            r == Self::spec_from_code(n),
    {
        match n {
            4 => Some(CountryCode::Afghanistan),
            8 => Some(CountryCode::Albania),
            12 => Some(CountryCode::Algeria),
            20 => Some(CountryCode::Andorra),
            24 => Some(CountryCode::Angola),
            28 => Some(CountryCode::AntiguaAndBarbuda),
            31 => Some(CountryCode::Azerbaijan),
            32 => Some(CountryCode::Argentina),
            36 => Some(CountryCode::Australia),
            40 => Some(CountryCode::Austria),
            44 => Some(CountryCode::Bahamas),
            48 => Some(CountryCode::Bahrain),
            50 => Some(CountryCode::Bangladesh),
            51 => Some(CountryCode::Armenia),
            52 => Some(CountryCode::Barbados),
            56 => Some(CountryCode::Belgium),
            64 => Some(CountryCode::Bhutan),
            68 => Some(CountryCode::Bolivia),
            70 => Some(CountryCode::BosniaAndHerzegovina),
            72 => Some(CountryCode::Botswana),
            76 => Some(CountryCode::Brazil),
            84 => Some(CountryCode::Belize),
            90 => Some(CountryCode::SolomonIslands),
            96 => Some(CountryCode::BruneiDarussalam),
            100 => Some(CountryCode::Bulgaria),
            104 => Some(CountryCode::Myanmar),
            108 => Some(CountryCode::Burundi),
            112 => Some(CountryCode::Belarus),
            116 => Some(CountryCode::Cambodia),
            120 => Some(CountryCode::Cameroon),
            124 => Some(CountryCode::Canada),
            132 => Some(CountryCode::CapeVerde),
            140 => Some(CountryCode::CentralAfricanRepublic),
            144 => Some(CountryCode::SriLanka),
            148 => Some(CountryCode::Chad),
            152 => Some(CountryCode::Chile),
            156 => Some(CountryCode::China),
            158 => Some(CountryCode::TaiwanProvinceOfChina),
            170 => Some(CountryCode::Colombia),
            174 => Some(CountryCode::Comoros),
            178 => Some(CountryCode::Congo),
            180 => Some(CountryCode::Zaire),
            188 => Some(CountryCode::CostaRica),
            191 => Some(CountryCode::Croatia),
            192 => Some(CountryCode::Cuba),
            196 => Some(CountryCode::Cyprus),
            203 => Some(CountryCode::CzechRepublic),
            204 => Some(CountryCode::Benin),
            208 => Some(CountryCode::Denmark),
            212 => Some(CountryCode::Dominica),
            214 => Some(CountryCode::DominicanRepublic),
            218 => Some(CountryCode::Ecuador),
            222 => Some(CountryCode::ElSalvador),
            226 => Some(CountryCode::EquatorialGuinea),
            231 => Some(CountryCode::Ethiopia),
            232 => Some(CountryCode::Eritrea),
            233 => Some(CountryCode::Estonia),
            242 => Some(CountryCode::Fiji),
            246 => Some(CountryCode::Finland),
            250 => Some(CountryCode::France),
            258 => Some(CountryCode::FrenchPolynesia),
            262 => Some(CountryCode::Djibouti),
            266 => Some(CountryCode::Gabon),
            268 => Some(CountryCode::Georgia),
            270 => Some(CountryCode::Gambia),
            276 => Some(CountryCode::Germany),
            288 => Some(CountryCode::Ghana),
            296 => Some(CountryCode::Kiribati),
            300 => Some(CountryCode::Greece),
            308 => Some(CountryCode::Grenada),
            320 => Some(CountryCode::Guatemala),
            324 => Some(CountryCode::Guinea),
            328 => Some(CountryCode::Guyana),
            332 => Some(CountryCode::Haiti),
            336 => Some(CountryCode::HolySeeVaticanCityState),
            340 => Some(CountryCode::Honduras),
            344 => Some(CountryCode::HongKong),
            348 => Some(CountryCode::Hungary),
            352 => Some(CountryCode::Iceland),
            356 => Some(CountryCode::India),
            360 => Some(CountryCode::Indonesia),
            364 => Some(CountryCode::IranIslamicRepublicOf),
            368 => Some(CountryCode::Iraq),
            372 => Some(CountryCode::Ireland),
            376 => Some(CountryCode::Israel),
            380 => Some(CountryCode::Italy),
            384 => Some(CountryCode::CoteDIvoire),
            388 => Some(CountryCode::Jamaica),
            392 => Some(CountryCode::Japan),
            398 => Some(CountryCode::Kazakhstan),
            400 => Some(CountryCode::Jordan),
            404 => Some(CountryCode::Kenya),
            408 => Some(CountryCode::KoreaDemocraticPeoplesRepublicOf),
            410 => Some(CountryCode::KoreaRepublicOf),
            414 => Some(CountryCode::Kuwait),
            417 => Some(CountryCode::Kyrgyzstan),
            418 => Some(CountryCode::LaoPeoplesDemocraticRepublic),
            422 => Some(CountryCode::Lebanon),
            426 => Some(CountryCode::Lesotho),
            428 => Some(CountryCode::Latvia),
            430 => Some(CountryCode::Liberia),
            434 => Some(CountryCode::LibyanArabJamahiriya),
            438 => Some(CountryCode::Liechtenstein),
            440 => Some(CountryCode::Lithuania),
            442 => Some(CountryCode::Luxembourg),
            446 => Some(CountryCode::Macao),
            450 => Some(CountryCode::Madagascar),
            454 => Some(CountryCode::Malawi),
            458 => Some(CountryCode::Malaysia),
            462 => Some(CountryCode::Maldives),
            466 => Some(CountryCode::Mali),
            470 => Some(CountryCode::Malta),
            478 => Some(CountryCode::Mauritania),
            480 => Some(CountryCode::Mauritius),
            484 => Some(CountryCode::Mexico),
            492 => Some(CountryCode::Monaco),
            496 => Some(CountryCode::Mongolia),
            498 => Some(CountryCode::MoldovaRepublicOf),
            499 => Some(CountryCode::Montenegro),
            504 => Some(CountryCode::Morocco),
            508 => Some(CountryCode::Mozambique),
            512 => Some(CountryCode::Oman),
            516 => Some(CountryCode::Namibia),
            520 => Some(CountryCode::Nauru),
            524 => Some(CountryCode::Nepal),
            528 => Some(CountryCode::Netherlands),
            540 => Some(CountryCode::NewCaledonia),
            548 => Some(CountryCode::Vanuatu),
            554 => Some(CountryCode::NewZealand),
            558 => Some(CountryCode::Nicaragua),
            562 => Some(CountryCode::Niger),
            566 => Some(CountryCode::Nigeria),
            578 => Some(CountryCode::Norway),
            583 => Some(CountryCode::MicronesiaFederatedStatesOf),
            584 => Some(CountryCode::MarshallIslands),
            585 => Some(CountryCode::Palau),
            586 => Some(CountryCode::Pakistan),
            591 => Some(CountryCode::Panama),
            598 => Some(CountryCode::PapuaNewGuinea),
            600 => Some(CountryCode::Paraguay),
            604 => Some(CountryCode::Peru),
            608 => Some(CountryCode::Philippines),
            616 => Some(CountryCode::Poland),
            620 => Some(CountryCode::Portugal),
            624 => Some(CountryCode::GuineaBissau),
            626 => Some(CountryCode::TimorLeste),
            630 => Some(CountryCode::PuertoRico),
            634 => Some(CountryCode::Qatar),
            642 => Some(CountryCode::Romania),
            643 => Some(CountryCode::RussianFederation),
            646 => Some(CountryCode::Rwanda),
            659 => Some(CountryCode::SaintKittsAndNevis),
            662 => Some(CountryCode::SaintLucia),
            670 => Some(CountryCode::SaintVincentAndTheGrenadines),
            674 => Some(CountryCode::SanMarino),
            678 => Some(CountryCode::SaoTomeAndPrincipe),
            682 => Some(CountryCode::SaudiArabia),
            686 => Some(CountryCode::Senegal),
            688 => Some(CountryCode::Serbia),
            690 => Some(CountryCode::Seychelles),
            694 => Some(CountryCode::SierraLeone),
            702 => Some(CountryCode::Singapore),
            703 => Some(CountryCode::Slovakia),
            704 => Some(CountryCode::Vietnam),
            705 => Some(CountryCode::Slovenia),
            706 => Some(CountryCode::Somalia),
            710 => Some(CountryCode::SouthAfrica),
            716 => Some(CountryCode::Zimbabwe),
            724 => Some(CountryCode::Spain),
            728 => Some(CountryCode::SouthSudan),
            729 => Some(CountryCode::Sudan),
            732 => Some(CountryCode::WesternSahara),
            740 => Some(CountryCode::Suriname),
            748 => Some(CountryCode::Swaziland),
            752 => Some(CountryCode::Sweden),
            756 => Some(CountryCode::Switzerland),
            760 => Some(CountryCode::SyrianArabRepublic),
            762 => Some(CountryCode::Tajikistan),
            764 => Some(CountryCode::Thailand),
            768 => Some(CountryCode::Togo),
            776 => Some(CountryCode::Tonga),
            780 => Some(CountryCode::TrinidadAndTobago),
            784 => Some(CountryCode::UnitedArabEmirates),
            788 => Some(CountryCode::Tunisia),
            792 => Some(CountryCode::Turkey),
            795 => Some(CountryCode::Turkmenistan),
            798 => Some(CountryCode::Tuvalu),
            800 => Some(CountryCode::Uganda),
            804 => Some(CountryCode::Ukraine),
            807 => Some(CountryCode::MacedoniaTheFormerYugoslavRepublicOf),
            818 => Some(CountryCode::Egypt),
            826 => Some(CountryCode::UnitedKingdom),
            834 => Some(CountryCode::TanzaniaUnitedRepublicOf),
            840 => Some(CountryCode::UnitedStates),
            854 => Some(CountryCode::BurkinaFaso),
            858 => Some(CountryCode::Uruguay),
            860 => Some(CountryCode::Uzbekistan),
            862 => Some(CountryCode::Venezuela),
            882 => Some(CountryCode::Samoa),
            887 => Some(CountryCode::Yemen),
            894 => Some(CountryCode::Zambia),
            _ => None,
        }
    }
}
/// A region (group of countries) of the CISAC Territory Information System, by its territory code.
#[derive(Debug, Clone, Copy, PartialEq, Eq, Structural)]
pub enum RegionCode {
    Africa,
    America,
    AmericanContinent,
    Antilles,
    ApecCountries,
    AseanCountries,
    Asia,
    Australasia,
    Balkans,
    BalticStates,
    Benelux,
    BritishIsles,
    BritishWestIndies,
    CentralAmerica,
    Commonwealth,
    CommonwealthAfricanTerritories,
    CommonwealthAsianTerritories,
    CommonwealthAustralasianTerritories,
    CommonwealthOfIndependentStates,
    EasternEurope,
    Europe,
    EuropeanEconomicArea,
    EuropeanContinent,
    EuropeanUnion,
    GsaCountries,
    MiddleEast,
    NaftaCountries,
    NordicCountries,
    NorthAfrica,
    NorthAmerica,
    Oceania,
    Scandinavia,
    SouthAmerica,
    SouthEastAsia,
    WestIndies,
    World,
    SacemTerritories,
}

impl RegionCode {
    /// The numeric code of each RegionCode value.
    pub open spec fn spec_code(self) -> u16 {
        match self {
            RegionCode::Africa => 2100,
            RegionCode::America => 2101,
            RegionCode::AmericanContinent => 2102,
            RegionCode::Antilles => 2103,
            RegionCode::ApecCountries => 2104,
            RegionCode::AseanCountries => 2105,
            RegionCode::Asia => 2106,
            RegionCode::Australasia => 2107,
            RegionCode::Balkans => 2108,
            RegionCode::BalticStates => 2109,
            RegionCode::Benelux => 2110,
            RegionCode::BritishIsles => 2111,
            RegionCode::BritishWestIndies => 2112,
            RegionCode::CentralAmerica => 2113,
            RegionCode::Commonwealth => 2114,
            RegionCode::CommonwealthAfricanTerritories => 2115,
            RegionCode::CommonwealthAsianTerritories => 2116,
            RegionCode::CommonwealthAustralasianTerritories => 2117,
            RegionCode::CommonwealthOfIndependentStates => 2118,
            RegionCode::EasternEurope => 2119,
            RegionCode::Europe => 2120,
            RegionCode::EuropeanEconomicArea => 2121,
            RegionCode::EuropeanContinent => 2122,
            RegionCode::EuropeanUnion => 2123,
            RegionCode::GsaCountries => 2124,
            RegionCode::MiddleEast => 2125,
            RegionCode::NaftaCountries => 2126,
            RegionCode::NordicCountries => 2127,
            RegionCode::NorthAfrica => 2128,
            RegionCode::NorthAmerica => 2129,
            RegionCode::Oceania => 2130,
            RegionCode::Scandinavia => 2131,
            RegionCode::SouthAmerica => 2132,
            RegionCode::SouthEastAsia => 2133,
            RegionCode::WestIndies => 2134,
            RegionCode::World => 2136,
            RegionCode::SacemTerritories => 3017,
        }
    }

    /// The RegionCode value that carries a numeric code, if any.
    pub open spec fn spec_from_code(n: u16) -> Option<Self> {
        match n {
            2100 => Some(RegionCode::Africa),
            2101 => Some(RegionCode::America),
            2102 => Some(RegionCode::AmericanContinent),
            2103 => Some(RegionCode::Antilles),
            2104 => Some(RegionCode::ApecCountries),
            2105 => Some(RegionCode::AseanCountries),
            2106 => Some(RegionCode::Asia),
            2107 => Some(RegionCode::Australasia),
            2108 => Some(RegionCode::Balkans),
            2109 => Some(RegionCode::BalticStates),
            2110 => Some(RegionCode::Benelux),
            2111 => Some(RegionCode::BritishIsles),
            2112 => Some(RegionCode::BritishWestIndies),
            2113 => Some(RegionCode::CentralAmerica),
            2114 => Some(RegionCode::Commonwealth),
            2115 => Some(RegionCode::CommonwealthAfricanTerritories),
            2116 => Some(RegionCode::CommonwealthAsianTerritories),
            2117 => Some(RegionCode::CommonwealthAustralasianTerritories),
            2118 => Some(RegionCode::CommonwealthOfIndependentStates),
            2119 => Some(RegionCode::EasternEurope),
            2120 => Some(RegionCode::Europe),
            2121 => Some(RegionCode::EuropeanEconomicArea),
            2122 => Some(RegionCode::EuropeanContinent),
            2123 => Some(RegionCode::EuropeanUnion),
            2124 => Some(RegionCode::GsaCountries),
            2125 => Some(RegionCode::MiddleEast),
            2126 => Some(RegionCode::NaftaCountries),
            2127 => Some(RegionCode::NordicCountries),
            2128 => Some(RegionCode::NorthAfrica),
            2129 => Some(RegionCode::NorthAmerica),
            2130 => Some(RegionCode::Oceania),
            2131 => Some(RegionCode::Scandinavia),
            2132 => Some(RegionCode::SouthAmerica),
            2133 => Some(RegionCode::SouthEastAsia),
            2134 => Some(RegionCode::WestIndies),
            2136 => Some(RegionCode::World),
            3017 => Some(RegionCode::SacemTerritories),
            _ => None,
        }
    }

    /// The numeric code of this value.
    pub fn code(&self) -> (r: u16)
        ensures
            r == self.spec_code(),
    {
        match self {
            RegionCode::Africa => 2100,
            RegionCode::America => 2101,
            RegionCode::AmericanContinent => 2102,
            RegionCode::Antilles => 2103,
            RegionCode::ApecCountries => 2104,
            RegionCode::AseanCountries => 2105,
            RegionCode::Asia => 2106,
            RegionCode::Australasia => 2107,
            RegionCode::Balkans => 2108,
            RegionCode::BalticStates => 2109,
            RegionCode::Benelux => 2110,
            RegionCode::BritishIsles => 2111,
            RegionCode::BritishWestIndies => 2112,
            RegionCode::CentralAmerica => 2113,
            RegionCode::Commonwealth => 2114,
            RegionCode::CommonwealthAfricanTerritories => 2115,
            RegionCode::CommonwealthAsianTerritories => 2116,
            RegionCode::CommonwealthAustralasianTerritories => 2117,
            RegionCode::CommonwealthOfIndependentStates => 2118,
            RegionCode::EasternEurope => 2119,
            RegionCode::Europe => 2120,
            RegionCode::EuropeanEconomicArea => 2121,
            RegionCode::EuropeanContinent => 2122,
            RegionCode::EuropeanUnion => 2123,
            RegionCode::GsaCountries => 2124,
            RegionCode::MiddleEast => 2125,
            RegionCode::NaftaCountries => 2126,
            RegionCode::NordicCountries => 2127,
            RegionCode::NorthAfrica => 2128,
            RegionCode::NorthAmerica => 2129,
            RegionCode::Oceania => 2130,
            RegionCode::Scandinavia => 2131,
            RegionCode::SouthAmerica => 2132,
            RegionCode::SouthEastAsia => 2133,
            RegionCode::WestIndies => 2134,
            RegionCode::World => 2136,
            RegionCode::SacemTerritories => 3017,
        }
    }

    /// The value that carries the numeric code `n`, or `None` when no value does.
    pub fn from_code(n: u16) -> (r: Option<Self>)
        ensures
            r == Self::spec_from_code(n),
    {
        match n {
            2100 => Some(RegionCode::Africa),
            2101 => Some(RegionCode::America),
            2102 => Some(RegionCode::AmericanContinent),
            2103 => Some(RegionCode::Antilles),
            2104 => Some(RegionCode::ApecCountries),
            2105 => Some(RegionCode::AseanCountries),
            2106 => Some(RegionCode::Asia),
            2107 => Some(RegionCode::Australasia),
            2108 => Some(RegionCode::Balkans),
            2109 => Some(RegionCode::BalticStates),
            2110 => Some(RegionCode::Benelux),
            2111 => Some(RegionCode::BritishIsles),
            2112 => Some(RegionCode::BritishWestIndies),
            2113 => Some(RegionCode::CentralAmerica),
            2114 => Some(RegionCode::Commonwealth),
            2115 => Some(RegionCode::CommonwealthAfricanTerritories),
            2116 => Some(RegionCode::CommonwealthAsianTerritories),
            2117 => Some(RegionCode::CommonwealthAustralasianTerritories),
            2118 => Some(RegionCode::CommonwealthOfIndependentStates),
            2119 => Some(RegionCode::EasternEurope),
            2120 => Some(RegionCode::Europe),
            2121 => Some(RegionCode::EuropeanEconomicArea),
            2122 => Some(RegionCode::EuropeanContinent),
            2123 => Some(RegionCode::EuropeanUnion),
            2124 => Some(RegionCode::GsaCountries),
            2125 => Some(RegionCode::MiddleEast),
            2126 => Some(RegionCode::NaftaCountries),
            2127 => Some(RegionCode::NordicCountries),
            2128 => Some(RegionCode::NorthAfrica),
            2129 => Some(RegionCode::NorthAmerica),
            2130 => Some(RegionCode::Oceania),
            2131 => Some(RegionCode::Scandinavia),
            2132 => Some(RegionCode::SouthAmerica),
            2133 => Some(RegionCode::SouthEastAsia),
            2134 => Some(RegionCode::WestIndies),
            2136 => Some(RegionCode::World),
            3017 => Some(RegionCode::SacemTerritories),
            _ => None,
        }
    }
}

/// A territory: either a region or a single country.
#[derive(Debug, Clone, Copy, PartialEq, Eq, Structural)]
pub enum TerritoryCode {
    Region(RegionCode),
    Country(CountryCode),
}

impl TerritoryCode {
    /// The numeric TIS code of a territory.
    pub open spec fn spec_code(self) -> u16 {
        match self {
            TerritoryCode::Region(x) => x.spec_code(),
            TerritoryCode::Country(x) => x.spec_code(),
        }
    }

    /// The territory that a numeric code names: a country when a country
    /// carries the code, else a region when one does.
    pub open spec fn spec_from_code(n: u16) -> Option<Self> {
        match CountryCode::spec_from_code(n) {
            Some(c) => Some(TerritoryCode::Country(c)),
            None => match RegionCode::spec_from_code(n) {
                Some(r) => Some(TerritoryCode::Region(r)),
                None => None,
            },
        }
    }

    /// The numeric TIS code of this territory (what it is stored and
    /// serialised as).
    pub fn code(&self) -> (r: u16)
        ensures
            r == self.spec_code(),
    {
        match self {
            TerritoryCode::Region(x) => x.code(),
            TerritoryCode::Country(x) => x.code(),
        }
    }

    /// Reads a territory back from its numeric code: a country first, then a
    /// region; `None` for a code that names neither.
    pub fn from_code(n: u16) -> (r: Option<Self>)
        ensures
            r == Self::spec_from_code(n),
    {
        match CountryCode::from_code(n) {
            Some(c) => Some(TerritoryCode::Country(c)),
            None => match RegionCode::from_code(n) {
                Some(r) => Some(TerritoryCode::Region(r)),
                None => None,
            },
        }
    }
}

/// Every society is read back from its own code.
pub proof fn lemma_society_code_roundtrip(c: SocietyCode)
    ensures
        SocietyCode::spec_from_code(c.spec_code()) == Some(c),
{
}

/// A code that is read as a society is that society's code.
#[verifier::rlimit(60)]
pub proof fn lemma_society_from_code_inverse(n: u16)
    ensures
        SocietyCode::spec_from_code(n) matches Some(c) ==> c.spec_code() == n,
{
}

/// Every country is read back from its own code.
pub proof fn lemma_country_code_roundtrip(c: CountryCode)
    ensures
        CountryCode::spec_from_code(c.spec_code()) == Some(c),
{
}

/// A code that is read as a country is that country's code.
pub proof fn lemma_country_from_code_inverse(n: u16)
    ensures
        CountryCode::spec_from_code(n) matches Some(c) ==> c.spec_code() == n,
{
}

/// Every region is read back from its own code.
pub proof fn lemma_region_code_roundtrip(r: RegionCode)
    ensures
        RegionCode::spec_from_code(r.spec_code()) == Some(r),
{
}

/// A code that is read as a region is that region's code.
pub proof fn lemma_region_from_code_inverse(n: u16)
    ensures
        RegionCode::spec_from_code(n) matches Some(r) ==> r.spec_code() == n,
{
}

/// Country codes lie below 900 and region codes from 2100 on, so no code
/// names both a country and a region.
pub proof fn lemma_country_region_codes_disjoint(c: CountryCode, r: RegionCode)
    ensures
        c.spec_code() < 900,
        2100 <= r.spec_code(),
        c.spec_code() != r.spec_code(),
{
}

/// Every territory is read back from its own code (what `Serialize` writes,
/// `Deserialize` reads back).
pub proof fn lemma_territory_code_roundtrip(t: TerritoryCode)
    ensures
        TerritoryCode::spec_from_code(t.spec_code()) == Some(t),
{
    match t {
        TerritoryCode::Country(c) => {
            lemma_country_code_roundtrip(c);
        },
        TerritoryCode::Region(r) => {
            lemma_region_code_roundtrip(r);
            lemma_country_code_below(r.spec_code());
        },
    }
}

/// No country carries a code of 900 or more.
proof fn lemma_country_code_below(n: u16)
    requires
        n >= 900,
    ensures
        CountryCode::spec_from_code(n) is None,
{
}

/// A code that is read as a territory is that territory's code.
pub proof fn lemma_territory_from_code_inverse(n: u16)
    ensures
        TerritoryCode::spec_from_code(n) matches Some(t) ==> t.spec_code() == n,
{
    lemma_country_from_code_inverse(n);
    lemma_region_from_code_inverse(n);
}

/// The TIS code of every society, and the society that each of those codes reads as.
#[verifier::rlimit(60)]
pub proof fn lemma_society_code_table()
    ensures
        SocietyCode::Dp.spec_code() == 0,
        SocietyCode::Acum.spec_code() == 1,
        SocietyCode::Addaf.spec_code() == 2,
        SocietyCode::Aepi.spec_code() == 3,
        SocietyCode::Agadu.spec_code() == 4,
        SocietyCode::Akm.spec_code() == 5,
        SocietyCode::Bucuda.spec_code() == 6,
        SocietyCode::Apdayc.spec_code() == 7,
        SocietyCode::Apra.spec_code() == 8,
        SocietyCode::Artisjus.spec_code() == 9,
        SocietyCode::Ascap.spec_code() == 10,
        SocietyCode::AustroMechana.spec_code() == 11,
        SocietyCode::Amcos.spec_code() == 12,
        SocietyCode::Awa.spec_code() == 13,
        SocietyCode::Argentores.spec_code() == 14,
        SocietyCode::Apa.spec_code() == 15,
        SocietyCode::Bumda.spec_code() == 16,
        SocietyCode::Amra.spec_code() == 17,
        SocietyCode::Bgda.spec_code() == 18,
        SocietyCode::Bmda.spec_code() == 19,
        SocietyCode::Sodrac.spec_code() == 20,
        SocietyCode::Bmi.spec_code() == 21,
        SocietyCode::Mcsn.spec_code() == 22,
        SocietyCode::Buma.spec_code() == 23,
        SocietyCode::Burida.spec_code() == 24,
        SocietyCode::Bsda.spec_code() == 25,
        SocietyCode::Cash.spec_code() == 26,
        SocietyCode::Capac.spec_code() == 27,
        SocietyCode::Lita.spec_code() == 28,
        SocietyCode::Scd.spec_code() == 29,
        SocietyCode::Amar.spec_code() == 30,
        SocietyCode::Dilia.spec_code() == 31,
        SocietyCode::Filscap.spec_code() == 32,
        SocietyCode::Omda.spec_code() == 33,
        SocietyCode::HarryFoxAgency.spec_code() == 34,
        SocietyCode::Gema.spec_code() == 35,
        SocietyCode::Iprs.spec_code() == 36,
        SocietyCode::Bubedra.spec_code() == 37,
        SocietyCode::Jasrac.spec_code() == 38,
        SocietyCode::Musicautor.spec_code() == 39,
        SocietyCode::Koda.spec_code() == 40,
        SocietyCode::LiterarMechana.spec_code() == 41,
        SocietyCode::Lvg.spec_code() == 42,
        SocietyCode::Mcsk.spec_code() == 43,
        SocietyCode::Mcps.spec_code() == 44,
        SocietyCode::Bbda.spec_code() == 45,
        SocietyCode::Mrs.spec_code() == 46,
        SocietyCode::Bcda.spec_code() == 47,
        SocietyCode::Ncb.spec_code() == 48,
        SocietyCode::Onda.spec_code() == 49,
        SocietyCode::Osa.spec_code() == 50,
        SocietyCode::Prolitteris.spec_code() == 51,
        SocietyCode::Prs.spec_code() == 52,
        SocietyCode::Procan.spec_code() == 53,
        SocietyCode::Alcs.spec_code() == 54,
        SocietyCode::Sabam.spec_code() == 55,
        SocietyCode::Sacd.spec_code() == 56,
        SocietyCode::Sacerau.spec_code() == 57,
        SocietyCode::Sacem.spec_code() == 58,
        SocietyCode::Sacm.spec_code() == 59,
        SocietyCode::Sacven.spec_code() == 60,
        SocietyCode::Sadaic.spec_code() == 61,
        SocietyCode::Sadembra.spec_code() == 62,
        SocietyCode::Samro.spec_code() == 63,
        SocietyCode::Sokoj.spec_code() == 64,
        SocietyCode::Sayce.spec_code() == 65,
        SocietyCode::Sbacem.spec_code() == 66,
        SocietyCode::Sbat.spec_code() == 67,
        SocietyCode::Sdrm.spec_code() == 68,
        SocietyCode::Spa.spec_code() == 69,
        SocietyCode::Sogem.spec_code() == 70,
        SocietyCode::Sesac.spec_code() == 71,
        SocietyCode::Sgae.spec_code() == 72,
        SocietyCode::Scam.spec_code() == 73,
        SocietyCode::Siae.spec_code() == 74,
        SocietyCode::Suissimage.spec_code() == 75,
        SocietyCode::Acemla.spec_code() == 76,
        SocietyCode::Stef.spec_code() == 77,
        SocietyCode::Stemra.spec_code() == 78,
        SocietyCode::Stim.spec_code() == 79,
        SocietyCode::Suisa.spec_code() == 80,
        SocietyCode::Sarral.spec_code() == 81,
        SocietyCode::Otpda.spec_code() == 82,
        SocietyCode::Soneca.spec_code() == 83,
        SocietyCode::Sayco.spec_code() == 84,
        SocietyCode::Soza.spec_code() == 85,
        SocietyCode::Sicam.spec_code() == 86,
        SocietyCode::Spacemf.spec_code() == 87,
        SocietyCode::Cmrra.spec_code() == 88,
        SocietyCode::Teosto.spec_code() == 89,
        SocietyCode::Tono.spec_code() == 90,
        SocietyCode::Ssa.spec_code() == 91,
        SocietyCode::Socinada.spec_code() == 92,
        SocietyCode::Ubc.spec_code() == 93,
        SocietyCode::Rao.spec_code() == 94,
        SocietyCode::Vgwort.spec_code() == 95,
        SocietyCode::Cott.spec_code() == 96,
        SocietyCode::Zaiks.spec_code() == 97,
        SocietyCode::Zimra.spec_code() == 98,
        SocietyCode::Ns.spec_code() == 99,
        SocietyCode::Socan.spec_code() == 101,
        SocietyCode::Nascam.spec_code() == 102,
        SocietyCode::Acdam.spec_code() == 103,
        SocietyCode::Macp.spec_code() == 104,
        SocietyCode::Masa.spec_code() == 105,
        SocietyCode::Compass.spec_code() == 106,
        SocietyCode::Acam.spec_code() == 107,
        SocietyCode::Cha.spec_code() == 108,
        SocietyCode::Kci.spec_code() == 109,
        SocietyCode::LatgaA.spec_code() == 110,
        SocietyCode::HdsZamp.spec_code() == 111,
        SocietyCode::Sazas.spec_code() == 112,
        SocietyCode::Laa.spec_code() == 113,
        SocietyCode::Agayc.spec_code() == 114,
        SocietyCode::UcmrAda.spec_code() == 115,
        SocietyCode::Eau.spec_code() == 116,
        SocietyCode::Mesam.spec_code() == 117,
        SocietyCode::Komca.spec_code() == 118,
        SocietyCode::Mcsc.spec_code() == 119,
        SocietyCode::Lira.spec_code() == 120,
        SocietyCode::Vdfs.spec_code() == 121,
        SocietyCode::AkkaLaa.spec_code() == 122,
        SocietyCode::Cosga.spec_code() == 123,
        SocietyCode::Cosoma.spec_code() == 124,
        SocietyCode::Bnda.spec_code() == 125,
        SocietyCode::Mct.spec_code() == 126,
        SocietyCode::Albautor.spec_code() == 127,
        SocietyCode::Imro.spec_code() == 128,
        SocietyCode::Sobodaycom.spec_code() == 129,
        SocietyCode::Butodra.spec_code() == 130,
        SocietyCode::Sada.spec_code() == 131,
        SocietyCode::BildKunst.spec_code() == 132,
        SocietyCode::Zamcops.spec_code() == 133,
        SocietyCode::Slprs.spec_code() == 134,
        SocietyCode::Sadh.spec_code() == 135,
        SocietyCode::ZampMacedonia.spec_code() == 136,
        SocietyCode::Sofam.spec_code() == 137,
        SocietyCode::Kopiosto.spec_code() == 138,
        SocietyCode::CopyDanBilledkunst.spec_code() == 139,
        SocietyCode::Uacrr.spec_code() == 140,
        SocietyCode::AtnLegacy.spec_code() == 141,
        SocietyCode::Dalro.spec_code() == 142,
        SocietyCode::Teaterautor.spec_code() == 143,
        SocietyCode::Haa.spec_code() == 144,
        SocietyCode::Dprs.spec_code() == 145,
        SocietyCode::Spac.spec_code() == 146,
        SocietyCode::Filmautor.spec_code() == 147,
        SocietyCode::Adagp.spec_code() == 148,
        SocietyCode::Ars.spec_code() == 149,
        SocietyCode::Beeldrecht.spec_code() == 150,
        SocietyCode::Bono.spec_code() == 151,
        SocietyCode::Bus.spec_code() == 152,
        SocietyCode::Dacs.spec_code() == 153,
        SocietyCode::Hungart.spec_code() == 154,
        SocietyCode::Somaap.spec_code() == 155,
        SocietyCode::Vaga.spec_code() == 156,
        SocietyCode::Vbk.spec_code() == 157,
        SocietyCode::Vegap.spec_code() == 158,
        SocietyCode::Viscopy.spec_code() == 159,
        SocietyCode::Rupis.spec_code() == 160,
        SocietyCode::Must.spec_code() == 161,
        SocietyCode::Ampal.spec_code() == 162,
        SocietyCode::ApgJapan.spec_code() == 163,
        SocietyCode::Apsav.spec_code() == 164,
        SocietyCode::Atn.spec_code() == 165,
        SocietyCode::Autorarte.spec_code() == 166,
        SocietyCode::Burafo.spec_code() == 167,
        SocietyCode::Cal.spec_code() == 168,
        SocietyCode::Coscap.spec_code() == 169,
        SocietyCode::Cpsn.spec_code() == 170,
        SocietyCode::Creaimagen.spec_code() == 171,
        SocietyCode::Dga.spec_code() == 172,
        SocietyCode::Directores.spec_code() == 173,
        SocietyCode::FlimJus.spec_code() == 174,
        SocietyCode::Copyro.spec_code() == 175,
        SocietyCode::Jacap.spec_code() == 176,
        SocietyCode::Kazak.spec_code() == 177,
        SocietyCode::Kosa.spec_code() == 178,
        SocietyCode::Kuvasto.spec_code() == 179,
        SocietyCode::Musikedition.spec_code() == 180,
        SocietyCode::Nmpa.spec_code() == 181,
        SocietyCode::Pappri.spec_code() == 182,
        SocietyCode::Sack.spec_code() == 183,
        SocietyCode::Sartec.spec_code() == 184,
        SocietyCode::Sesam.spec_code() == 185,
        SocietyCode::Sgdl.spec_code() == 186,
        SocietyCode::Snac.spec_code() == 187,
        SocietyCode::SocieteDeLimage.spec_code() == 188,
        SocietyCode::Socinpro.spec_code() == 189,
        SocietyCode::Sope.spec_code() == 190,
        SocietyCode::Spacq.spec_code() == 191,
        SocietyCode::Sff.spec_code() == 192,
        SocietyCode::TheSocietyOfAuthors.spec_code() == 193,
        SocietyCode::UfficioLegale.spec_code() == 194,
        SocietyCode::Vevam.spec_code() == 195,
        SocietyCode::Wga.spec_code() == 196,
        SocietyCode::Wgj.spec_code() == 197,
        SocietyCode::ZampSlovenia.spec_code() == 198,
        SocietyCode::Zapa.spec_code() == 199,
        SocietyCode::Msg.spec_code() == 200,
        SocietyCode::Abramus.spec_code() == 201,
        SocietyCode::Asdac.spec_code() == 202,
        SocietyCode::Awgacs.spec_code() == 203,
        SocietyCode::Sas.spec_code() == 204,
        SocietyCode::Sodart.spec_code() == 205,
        SocietyCode::SuomenKirjailijaliitto.spec_code() == 206,
        SocietyCode::TheAuthorsRegistryInc.spec_code() == 207,
        SocietyCode::Sga.spec_code() == 208,
        SocietyCode::Armauthor.spec_code() == 209,
        SocietyCode::Access.spec_code() == 210,
        SocietyCode::Cscs.spec_code() == 212,
        SocietyCode::Drcc.spec_code() == 213,
        SocietyCode::Hms.spec_code() == 214,
        SocietyCode::Kyrgyzpatent.spec_code() == 215,
        SocietyCode::Sqn.spec_code() == 216,
        SocietyCode::Abrac.spec_code() == 217,
        SocietyCode::Anacim.spec_code() == 218,
        SocietyCode::Assim.spec_code() == 219,
        SocietyCode::Atida.spec_code() == 220,
        SocietyCode::Sabem.spec_code() == 221,
        SocietyCode::Fonoperu.spec_code() == 222,
        SocietyCode::Cosota.spec_code() == 223,
        SocietyCode::Somas.spec_code() == 224,
        SocietyCode::Saif.spec_code() == 225,
        SocietyCode::Aacimh.spec_code() == 226,
        SocietyCode::Sgacedom.spec_code() == 227,
        SocietyCode::Roms.spec_code() == 228,
        SocietyCode::Icg.spec_code() == 229,
        SocietyCode::Adavis.spec_code() == 230,
        SocietyCode::Autvis.spec_code() == 231,
        SocietyCode::Gestor.spec_code() == 232,
        SocietyCode::Sacemluxembourg.spec_code() == 233,
        SocietyCode::Ucoso.spec_code() == 234,
        SocietyCode::Sacenc.spec_code() == 235,
        SocietyCode::WidCentre.spec_code() == 300,
        SocietyCode::Gesac.spec_code() == 301,
        SocietyCode::Latinautor.spec_code() == 302,
        SocietyCode::NordDoc.spec_code() == 303,
        SocietyCode::Songcode.spec_code() == 304,
        SocietyCode::Imjv.spec_code() == 305,
        SocietyCode::Ccl.spec_code() == 306,
        SocietyCode::Misasia.spec_code() == 307,
        SocietyCode::Ecad.spec_code() == 308,
        SocietyCode::Latinnet.spec_code() == 309,
        SocietyCode::Diva.spec_code() == 310,
        SocietyCode::MusicMark.spec_code() == 707,
        SocietyCode::spec_from_code(0) == Some(SocietyCode::Dp),
        SocietyCode::spec_from_code(1) == Some(SocietyCode::Acum),
        SocietyCode::spec_from_code(2) == Some(SocietyCode::Addaf),
        SocietyCode::spec_from_code(3) == Some(SocietyCode::Aepi),
        SocietyCode::spec_from_code(4) == Some(SocietyCode::Agadu),
        SocietyCode::spec_from_code(5) == Some(SocietyCode::Akm),
        SocietyCode::spec_from_code(6) == Some(SocietyCode::Bucuda),
        SocietyCode::spec_from_code(7) == Some(SocietyCode::Apdayc),
        SocietyCode::spec_from_code(8) == Some(SocietyCode::Apra),
        SocietyCode::spec_from_code(9) == Some(SocietyCode::Artisjus),
        SocietyCode::spec_from_code(10) == Some(SocietyCode::Ascap),
        SocietyCode::spec_from_code(11) == Some(SocietyCode::AustroMechana),
        SocietyCode::spec_from_code(12) == Some(SocietyCode::Amcos),
        SocietyCode::spec_from_code(13) == Some(SocietyCode::Awa),
        SocietyCode::spec_from_code(14) == Some(SocietyCode::Argentores),
        SocietyCode::spec_from_code(15) == Some(SocietyCode::Apa),
        SocietyCode::spec_from_code(16) == Some(SocietyCode::Bumda),
        SocietyCode::spec_from_code(17) == Some(SocietyCode::Amra),
        SocietyCode::spec_from_code(18) == Some(SocietyCode::Bgda),
        SocietyCode::spec_from_code(19) == Some(SocietyCode::Bmda),
        SocietyCode::spec_from_code(20) == Some(SocietyCode::Sodrac),
        SocietyCode::spec_from_code(21) == Some(SocietyCode::Bmi),
        SocietyCode::spec_from_code(22) == Some(SocietyCode::Mcsn),
        SocietyCode::spec_from_code(23) == Some(SocietyCode::Buma),
        SocietyCode::spec_from_code(24) == Some(SocietyCode::Burida),
        SocietyCode::spec_from_code(25) == Some(SocietyCode::Bsda),
        SocietyCode::spec_from_code(26) == Some(SocietyCode::Cash),
        SocietyCode::spec_from_code(27) == Some(SocietyCode::Capac),
        SocietyCode::spec_from_code(28) == Some(SocietyCode::Lita),
        SocietyCode::spec_from_code(29) == Some(SocietyCode::Scd),
        SocietyCode::spec_from_code(30) == Some(SocietyCode::Amar),
        SocietyCode::spec_from_code(31) == Some(SocietyCode::Dilia),
        SocietyCode::spec_from_code(32) == Some(SocietyCode::Filscap),
        SocietyCode::spec_from_code(33) == Some(SocietyCode::Omda),
        SocietyCode::spec_from_code(34) == Some(SocietyCode::HarryFoxAgency),
        SocietyCode::spec_from_code(35) == Some(SocietyCode::Gema),
        SocietyCode::spec_from_code(36) == Some(SocietyCode::Iprs),
        SocietyCode::spec_from_code(37) == Some(SocietyCode::Bubedra),
        SocietyCode::spec_from_code(38) == Some(SocietyCode::Jasrac),
        SocietyCode::spec_from_code(39) == Some(SocietyCode::Musicautor),
        SocietyCode::spec_from_code(40) == Some(SocietyCode::Koda),
        SocietyCode::spec_from_code(41) == Some(SocietyCode::LiterarMechana),
        SocietyCode::spec_from_code(42) == Some(SocietyCode::Lvg),
        SocietyCode::spec_from_code(43) == Some(SocietyCode::Mcsk),
        SocietyCode::spec_from_code(44) == Some(SocietyCode::Mcps),
        SocietyCode::spec_from_code(45) == Some(SocietyCode::Bbda),
        SocietyCode::spec_from_code(46) == Some(SocietyCode::Mrs),
        SocietyCode::spec_from_code(47) == Some(SocietyCode::Bcda),
        SocietyCode::spec_from_code(48) == Some(SocietyCode::Ncb),
        SocietyCode::spec_from_code(49) == Some(SocietyCode::Onda),
        SocietyCode::spec_from_code(50) == Some(SocietyCode::Osa),
        SocietyCode::spec_from_code(51) == Some(SocietyCode::Prolitteris),
        SocietyCode::spec_from_code(52) == Some(SocietyCode::Prs),
        SocietyCode::spec_from_code(53) == Some(SocietyCode::Procan),
        SocietyCode::spec_from_code(54) == Some(SocietyCode::Alcs),
        SocietyCode::spec_from_code(55) == Some(SocietyCode::Sabam),
        SocietyCode::spec_from_code(56) == Some(SocietyCode::Sacd),
        SocietyCode::spec_from_code(57) == Some(SocietyCode::Sacerau),
        SocietyCode::spec_from_code(58) == Some(SocietyCode::Sacem),
        SocietyCode::spec_from_code(59) == Some(SocietyCode::Sacm),
        SocietyCode::spec_from_code(60) == Some(SocietyCode::Sacven),
        SocietyCode::spec_from_code(61) == Some(SocietyCode::Sadaic),
        SocietyCode::spec_from_code(62) == Some(SocietyCode::Sadembra),
        SocietyCode::spec_from_code(63) == Some(SocietyCode::Samro),
        SocietyCode::spec_from_code(64) == Some(SocietyCode::Sokoj),
        SocietyCode::spec_from_code(65) == Some(SocietyCode::Sayce),
        SocietyCode::spec_from_code(66) == Some(SocietyCode::Sbacem),
        SocietyCode::spec_from_code(67) == Some(SocietyCode::Sbat),
        SocietyCode::spec_from_code(68) == Some(SocietyCode::Sdrm),
        SocietyCode::spec_from_code(69) == Some(SocietyCode::Spa),
        SocietyCode::spec_from_code(70) == Some(SocietyCode::Sogem),
        SocietyCode::spec_from_code(71) == Some(SocietyCode::Sesac),
        SocietyCode::spec_from_code(72) == Some(SocietyCode::Sgae),
        SocietyCode::spec_from_code(73) == Some(SocietyCode::Scam),
        SocietyCode::spec_from_code(74) == Some(SocietyCode::Siae),
        SocietyCode::spec_from_code(75) == Some(SocietyCode::Suissimage),
        SocietyCode::spec_from_code(76) == Some(SocietyCode::Acemla),
        SocietyCode::spec_from_code(77) == Some(SocietyCode::Stef),
        SocietyCode::spec_from_code(78) == Some(SocietyCode::Stemra),
        SocietyCode::spec_from_code(79) == Some(SocietyCode::Stim),
        SocietyCode::spec_from_code(80) == Some(SocietyCode::Suisa),
        SocietyCode::spec_from_code(81) == Some(SocietyCode::Sarral),
        SocietyCode::spec_from_code(82) == Some(SocietyCode::Otpda),
        SocietyCode::spec_from_code(83) == Some(SocietyCode::Soneca),
        SocietyCode::spec_from_code(84) == Some(SocietyCode::Sayco),
        SocietyCode::spec_from_code(85) == Some(SocietyCode::Soza),
        SocietyCode::spec_from_code(86) == Some(SocietyCode::Sicam),
        SocietyCode::spec_from_code(87) == Some(SocietyCode::Spacemf),
        SocietyCode::spec_from_code(88) == Some(SocietyCode::Cmrra),
        SocietyCode::spec_from_code(89) == Some(SocietyCode::Teosto),
        SocietyCode::spec_from_code(90) == Some(SocietyCode::Tono),
        SocietyCode::spec_from_code(91) == Some(SocietyCode::Ssa),
        SocietyCode::spec_from_code(92) == Some(SocietyCode::Socinada),
        SocietyCode::spec_from_code(93) == Some(SocietyCode::Ubc),
        SocietyCode::spec_from_code(94) == Some(SocietyCode::Rao),
        SocietyCode::spec_from_code(95) == Some(SocietyCode::Vgwort),
        SocietyCode::spec_from_code(96) == Some(SocietyCode::Cott),
        SocietyCode::spec_from_code(97) == Some(SocietyCode::Zaiks),
        SocietyCode::spec_from_code(98) == Some(SocietyCode::Zimra),
        SocietyCode::spec_from_code(99) == Some(SocietyCode::Ns),
        SocietyCode::spec_from_code(101) == Some(SocietyCode::Socan),
        SocietyCode::spec_from_code(102) == Some(SocietyCode::Nascam),
        SocietyCode::spec_from_code(103) == Some(SocietyCode::Acdam),
        SocietyCode::spec_from_code(104) == Some(SocietyCode::Macp),
        SocietyCode::spec_from_code(105) == Some(SocietyCode::Masa),
        SocietyCode::spec_from_code(106) == Some(SocietyCode::Compass),
        SocietyCode::spec_from_code(107) == Some(SocietyCode::Acam),
        SocietyCode::spec_from_code(108) == Some(SocietyCode::Cha),
        SocietyCode::spec_from_code(109) == Some(SocietyCode::Kci),
        SocietyCode::spec_from_code(110) == Some(SocietyCode::LatgaA),
        SocietyCode::spec_from_code(111) == Some(SocietyCode::HdsZamp),
        SocietyCode::spec_from_code(112) == Some(SocietyCode::Sazas),
        SocietyCode::spec_from_code(113) == Some(SocietyCode::Laa),
        SocietyCode::spec_from_code(114) == Some(SocietyCode::Agayc),
        SocietyCode::spec_from_code(115) == Some(SocietyCode::UcmrAda),
        SocietyCode::spec_from_code(116) == Some(SocietyCode::Eau),
        SocietyCode::spec_from_code(117) == Some(SocietyCode::Mesam),
        SocietyCode::spec_from_code(118) == Some(SocietyCode::Komca),
        SocietyCode::spec_from_code(119) == Some(SocietyCode::Mcsc),
        SocietyCode::spec_from_code(120) == Some(SocietyCode::Lira),
        SocietyCode::spec_from_code(121) == Some(SocietyCode::Vdfs),
        SocietyCode::spec_from_code(122) == Some(SocietyCode::AkkaLaa),
        SocietyCode::spec_from_code(123) == Some(SocietyCode::Cosga),
        SocietyCode::spec_from_code(124) == Some(SocietyCode::Cosoma),
        SocietyCode::spec_from_code(125) == Some(SocietyCode::Bnda),
        SocietyCode::spec_from_code(126) == Some(SocietyCode::Mct),
        SocietyCode::spec_from_code(127) == Some(SocietyCode::Albautor),
        SocietyCode::spec_from_code(128) == Some(SocietyCode::Imro),
        SocietyCode::spec_from_code(129) == Some(SocietyCode::Sobodaycom),
        SocietyCode::spec_from_code(130) == Some(SocietyCode::Butodra),
        SocietyCode::spec_from_code(131) == Some(SocietyCode::Sada),
        SocietyCode::spec_from_code(132) == Some(SocietyCode::BildKunst),
        SocietyCode::spec_from_code(133) == Some(SocietyCode::Zamcops),
        SocietyCode::spec_from_code(134) == Some(SocietyCode::Slprs),
        SocietyCode::spec_from_code(135) == Some(SocietyCode::Sadh),
        SocietyCode::spec_from_code(136) == Some(SocietyCode::ZampMacedonia),
        SocietyCode::spec_from_code(137) == Some(SocietyCode::Sofam),
        SocietyCode::spec_from_code(138) == Some(SocietyCode::Kopiosto),
        SocietyCode::spec_from_code(139) == Some(SocietyCode::CopyDanBilledkunst),
        SocietyCode::spec_from_code(140) == Some(SocietyCode::Uacrr),
        SocietyCode::spec_from_code(141) == Some(SocietyCode::AtnLegacy),
        SocietyCode::spec_from_code(142) == Some(SocietyCode::Dalro),
        SocietyCode::spec_from_code(143) == Some(SocietyCode::Teaterautor),
        SocietyCode::spec_from_code(144) == Some(SocietyCode::Haa),
        SocietyCode::spec_from_code(145) == Some(SocietyCode::Dprs),
        SocietyCode::spec_from_code(146) == Some(SocietyCode::Spac),
        SocietyCode::spec_from_code(147) == Some(SocietyCode::Filmautor),
        SocietyCode::spec_from_code(148) == Some(SocietyCode::Adagp),
        SocietyCode::spec_from_code(149) == Some(SocietyCode::Ars),
        SocietyCode::spec_from_code(150) == Some(SocietyCode::Beeldrecht),
        SocietyCode::spec_from_code(151) == Some(SocietyCode::Bono),
        SocietyCode::spec_from_code(152) == Some(SocietyCode::Bus),
        SocietyCode::spec_from_code(153) == Some(SocietyCode::Dacs),
        SocietyCode::spec_from_code(154) == Some(SocietyCode::Hungart),
        SocietyCode::spec_from_code(155) == Some(SocietyCode::Somaap),
        SocietyCode::spec_from_code(156) == Some(SocietyCode::Vaga),
        SocietyCode::spec_from_code(157) == Some(SocietyCode::Vbk),
        SocietyCode::spec_from_code(158) == Some(SocietyCode::Vegap),
        SocietyCode::spec_from_code(159) == Some(SocietyCode::Viscopy),
        SocietyCode::spec_from_code(160) == Some(SocietyCode::Rupis),
        SocietyCode::spec_from_code(161) == Some(SocietyCode::Must),
        SocietyCode::spec_from_code(162) == Some(SocietyCode::Ampal),
        SocietyCode::spec_from_code(163) == Some(SocietyCode::ApgJapan),
        SocietyCode::spec_from_code(164) == Some(SocietyCode::Apsav),
        SocietyCode::spec_from_code(165) == Some(SocietyCode::Atn),
        SocietyCode::spec_from_code(166) == Some(SocietyCode::Autorarte),
        SocietyCode::spec_from_code(167) == Some(SocietyCode::Burafo),
        SocietyCode::spec_from_code(168) == Some(SocietyCode::Cal),
        SocietyCode::spec_from_code(169) == Some(SocietyCode::Coscap),
        SocietyCode::spec_from_code(170) == Some(SocietyCode::Cpsn),
        SocietyCode::spec_from_code(171) == Some(SocietyCode::Creaimagen),
        SocietyCode::spec_from_code(172) == Some(SocietyCode::Dga),
        SocietyCode::spec_from_code(173) == Some(SocietyCode::Directores),
        SocietyCode::spec_from_code(174) == Some(SocietyCode::FlimJus),
        SocietyCode::spec_from_code(175) == Some(SocietyCode::Copyro),
        SocietyCode::spec_from_code(176) == Some(SocietyCode::Jacap),
        SocietyCode::spec_from_code(177) == Some(SocietyCode::Kazak),
        SocietyCode::spec_from_code(178) == Some(SocietyCode::Kosa),
        SocietyCode::spec_from_code(179) == Some(SocietyCode::Kuvasto),
        SocietyCode::spec_from_code(180) == Some(SocietyCode::Musikedition),
        SocietyCode::spec_from_code(181) == Some(SocietyCode::Nmpa),
        SocietyCode::spec_from_code(182) == Some(SocietyCode::Pappri),
        SocietyCode::spec_from_code(183) == Some(SocietyCode::Sack),
        SocietyCode::spec_from_code(184) == Some(SocietyCode::Sartec),
        SocietyCode::spec_from_code(185) == Some(SocietyCode::Sesam),
        SocietyCode::spec_from_code(186) == Some(SocietyCode::Sgdl),
        SocietyCode::spec_from_code(187) == Some(SocietyCode::Snac),
        SocietyCode::spec_from_code(188) == Some(SocietyCode::SocieteDeLimage),
        SocietyCode::spec_from_code(189) == Some(SocietyCode::Socinpro),
        SocietyCode::spec_from_code(190) == Some(SocietyCode::Sope),
        SocietyCode::spec_from_code(191) == Some(SocietyCode::Spacq),
        SocietyCode::spec_from_code(192) == Some(SocietyCode::Sff),
        SocietyCode::spec_from_code(193) == Some(SocietyCode::TheSocietyOfAuthors),
        SocietyCode::spec_from_code(194) == Some(SocietyCode::UfficioLegale),
        SocietyCode::spec_from_code(195) == Some(SocietyCode::Vevam),
        SocietyCode::spec_from_code(196) == Some(SocietyCode::Wga),
        SocietyCode::spec_from_code(197) == Some(SocietyCode::Wgj),
        SocietyCode::spec_from_code(198) == Some(SocietyCode::ZampSlovenia),
        SocietyCode::spec_from_code(199) == Some(SocietyCode::Zapa),
        SocietyCode::spec_from_code(200) == Some(SocietyCode::Msg),
        SocietyCode::spec_from_code(201) == Some(SocietyCode::Abramus),
        SocietyCode::spec_from_code(202) == Some(SocietyCode::Asdac),
        SocietyCode::spec_from_code(203) == Some(SocietyCode::Awgacs),
        SocietyCode::spec_from_code(204) == Some(SocietyCode::Sas),
        SocietyCode::spec_from_code(205) == Some(SocietyCode::Sodart),
        SocietyCode::spec_from_code(206) == Some(SocietyCode::SuomenKirjailijaliitto),
        SocietyCode::spec_from_code(207) == Some(SocietyCode::TheAuthorsRegistryInc),
        SocietyCode::spec_from_code(208) == Some(SocietyCode::Sga),
        SocietyCode::spec_from_code(209) == Some(SocietyCode::Armauthor),
        SocietyCode::spec_from_code(210) == Some(SocietyCode::Access),
        SocietyCode::spec_from_code(212) == Some(SocietyCode::Cscs),
        SocietyCode::spec_from_code(213) == Some(SocietyCode::Drcc),
        SocietyCode::spec_from_code(214) == Some(SocietyCode::Hms),
        SocietyCode::spec_from_code(215) == Some(SocietyCode::Kyrgyzpatent),
        SocietyCode::spec_from_code(216) == Some(SocietyCode::Sqn),
        SocietyCode::spec_from_code(217) == Some(SocietyCode::Abrac),
        SocietyCode::spec_from_code(218) == Some(SocietyCode::Anacim),
        SocietyCode::spec_from_code(219) == Some(SocietyCode::Assim),
        SocietyCode::spec_from_code(220) == Some(SocietyCode::Atida),
        SocietyCode::spec_from_code(221) == Some(SocietyCode::Sabem),
        SocietyCode::spec_from_code(222) == Some(SocietyCode::Fonoperu),
        SocietyCode::spec_from_code(223) == Some(SocietyCode::Cosota),
        SocietyCode::spec_from_code(224) == Some(SocietyCode::Somas),
        SocietyCode::spec_from_code(225) == Some(SocietyCode::Saif),
        SocietyCode::spec_from_code(226) == Some(SocietyCode::Aacimh),
        SocietyCode::spec_from_code(227) == Some(SocietyCode::Sgacedom),
        SocietyCode::spec_from_code(228) == Some(SocietyCode::Roms),
        SocietyCode::spec_from_code(229) == Some(SocietyCode::Icg),
        SocietyCode::spec_from_code(230) == Some(SocietyCode::Adavis),
        SocietyCode::spec_from_code(231) == Some(SocietyCode::Autvis),
        SocietyCode::spec_from_code(232) == Some(SocietyCode::Gestor),
        SocietyCode::spec_from_code(233) == Some(SocietyCode::Sacemluxembourg),
        SocietyCode::spec_from_code(234) == Some(SocietyCode::Ucoso),
        SocietyCode::spec_from_code(235) == Some(SocietyCode::Sacenc),
        SocietyCode::spec_from_code(300) == Some(SocietyCode::WidCentre),
        SocietyCode::spec_from_code(301) == Some(SocietyCode::Gesac),
        SocietyCode::spec_from_code(302) == Some(SocietyCode::Latinautor),
        SocietyCode::spec_from_code(303) == Some(SocietyCode::NordDoc),
        SocietyCode::spec_from_code(304) == Some(SocietyCode::Songcode),
        SocietyCode::spec_from_code(305) == Some(SocietyCode::Imjv),
        SocietyCode::spec_from_code(306) == Some(SocietyCode::Ccl),
        SocietyCode::spec_from_code(307) == Some(SocietyCode::Misasia),
        SocietyCode::spec_from_code(308) == Some(SocietyCode::Ecad),
        SocietyCode::spec_from_code(309) == Some(SocietyCode::Latinnet),
        SocietyCode::spec_from_code(310) == Some(SocietyCode::Diva),
        SocietyCode::spec_from_code(707) == Some(SocietyCode::MusicMark),
{
}

/// The TIS code of every country, and the country that each of those codes reads as.
#[verifier::rlimit(60)]
pub proof fn lemma_country_code_table()
    ensures
        CountryCode::Afghanistan.spec_code() == 4,
        CountryCode::Albania.spec_code() == 8,
        CountryCode::Algeria.spec_code() == 12,
        CountryCode::Andorra.spec_code() == 20,
        CountryCode::Angola.spec_code() == 24,
        CountryCode::AntiguaAndBarbuda.spec_code() == 28,
        CountryCode::Azerbaijan.spec_code() == 31,
        CountryCode::Argentina.spec_code() == 32,
        CountryCode::Australia.spec_code() == 36,
        CountryCode::Austria.spec_code() == 40,
        CountryCode::Bahamas.spec_code() == 44,
        CountryCode::Bahrain.spec_code() == 48,
        CountryCode::Bangladesh.spec_code() == 50,
        CountryCode::Armenia.spec_code() == 51,
        CountryCode::Barbados.spec_code() == 52,
        CountryCode::Belgium.spec_code() == 56,
        CountryCode::Bhutan.spec_code() == 64,
        CountryCode::Bolivia.spec_code() == 68,
        CountryCode::BosniaAndHerzegovina.spec_code() == 70,
        CountryCode::Botswana.spec_code() == 72,
        CountryCode::Brazil.spec_code() == 76,
        CountryCode::Belize.spec_code() == 84,
        CountryCode::SolomonIslands.spec_code() == 90,
        CountryCode::BruneiDarussalam.spec_code() == 96,
        CountryCode::Bulgaria.spec_code() == 100,
        CountryCode::Myanmar.spec_code() == 104,
        CountryCode::Burundi.spec_code() == 108,
        CountryCode::Belarus.spec_code() == 112,
        CountryCode::Cambodia.spec_code() == 116,
        CountryCode::Cameroon.spec_code() == 120,
        CountryCode::Canada.spec_code() == 124,
        CountryCode::CapeVerde.spec_code() == 132,
        CountryCode::CentralAfricanRepublic.spec_code() == 140,
        CountryCode::SriLanka.spec_code() == 144,
        CountryCode::Chad.spec_code() == 148,
        CountryCode::Chile.spec_code() == 152,
        CountryCode::China.spec_code() == 156,
        CountryCode::TaiwanProvinceOfChina.spec_code() == 158,
        CountryCode::Colombia.spec_code() == 170,
        CountryCode::Comoros.spec_code() == 174,
        CountryCode::Congo.spec_code() == 178,
        CountryCode::Zaire.spec_code() == 180,
        CountryCode::CostaRica.spec_code() == 188,
        CountryCode::Croatia.spec_code() == 191,
        CountryCode::Cuba.spec_code() == 192,
        CountryCode::Cyprus.spec_code() == 196,
        CountryCode::CzechRepublic.spec_code() == 203,
        CountryCode::Benin.spec_code() == 204,
        CountryCode::Denmark.spec_code() == 208,
        CountryCode::Dominica.spec_code() == 212,
        CountryCode::DominicanRepublic.spec_code() == 214,
        CountryCode::Ecuador.spec_code() == 218,
        CountryCode::ElSalvador.spec_code() == 222,
        CountryCode::EquatorialGuinea.spec_code() == 226,
        CountryCode::Ethiopia.spec_code() == 231,
        CountryCode::Eritrea.spec_code() == 232,
        CountryCode::Estonia.spec_code() == 233,
        CountryCode::Fiji.spec_code() == 242,
        CountryCode::Finland.spec_code() == 246,
        CountryCode::France.spec_code() == 250,
        CountryCode::FrenchPolynesia.spec_code() == 258,
        CountryCode::Djibouti.spec_code() == 262,
        CountryCode::Gabon.spec_code() == 266,
        CountryCode::Georgia.spec_code() == 268,
        CountryCode::Gambia.spec_code() == 270,
        CountryCode::Germany.spec_code() == 276,
        CountryCode::Ghana.spec_code() == 288,
        CountryCode::Kiribati.spec_code() == 296,
        CountryCode::Greece.spec_code() == 300,
        CountryCode::Grenada.spec_code() == 308,
        CountryCode::Guatemala.spec_code() == 320,
        CountryCode::Guinea.spec_code() == 324,
        CountryCode::Guyana.spec_code() == 328,
        CountryCode::Haiti.spec_code() == 332,
        CountryCode::HolySeeVaticanCityState.spec_code() == 336,
        CountryCode::Honduras.spec_code() == 340,
        CountryCode::HongKong.spec_code() == 344,
        CountryCode::Hungary.spec_code() == 348,
        CountryCode::Iceland.spec_code() == 352,
        CountryCode::India.spec_code() == 356,
        CountryCode::Indonesia.spec_code() == 360,
        CountryCode::IranIslamicRepublicOf.spec_code() == 364,
        CountryCode::Iraq.spec_code() == 368,
        CountryCode::Ireland.spec_code() == 372,
        CountryCode::Israel.spec_code() == 376,
        CountryCode::Italy.spec_code() == 380,
        CountryCode::CoteDIvoire.spec_code() == 384,
        CountryCode::Jamaica.spec_code() == 388,
        CountryCode::Japan.spec_code() == 392,
        CountryCode::Kazakhstan.spec_code() == 398,
        CountryCode::Jordan.spec_code() == 400,
        CountryCode::Kenya.spec_code() == 404,
        CountryCode::KoreaDemocraticPeoplesRepublicOf.spec_code() == 408,
        CountryCode::KoreaRepublicOf.spec_code() == 410,
        CountryCode::Kuwait.spec_code() == 414,
        CountryCode::Kyrgyzstan.spec_code() == 417,
        CountryCode::LaoPeoplesDemocraticRepublic.spec_code() == 418,
        CountryCode::Lebanon.spec_code() == 422,
        CountryCode::Lesotho.spec_code() == 426,
        CountryCode::Latvia.spec_code() == 428,
        CountryCode::Liberia.spec_code() == 430,
        CountryCode::LibyanArabJamahiriya.spec_code() == 434,
        CountryCode::Liechtenstein.spec_code() == 438,
        CountryCode::Lithuania.spec_code() == 440,
        CountryCode::Luxembourg.spec_code() == 442,
        CountryCode::Macao.spec_code() == 446,
        CountryCode::Madagascar.spec_code() == 450,
        CountryCode::Malawi.spec_code() == 454,
        CountryCode::Malaysia.spec_code() == 458,
        CountryCode::Maldives.spec_code() == 462,
        CountryCode::Mali.spec_code() == 466,
        CountryCode::Malta.spec_code() == 470,
        CountryCode::Mauritania.spec_code() == 478,
        CountryCode::Mauritius.spec_code() == 480,
        CountryCode::Mexico.spec_code() == 484,
        CountryCode::Monaco.spec_code() == 492,
        CountryCode::Mongolia.spec_code() == 496,
        CountryCode::MoldovaRepublicOf.spec_code() == 498,
        CountryCode::Montenegro.spec_code() == 499,
        CountryCode::Morocco.spec_code() == 504,
        CountryCode::Mozambique.spec_code() == 508,
        CountryCode::Oman.spec_code() == 512,
        CountryCode::Namibia.spec_code() == 516,
        CountryCode::Nauru.spec_code() == 520,
        CountryCode::Nepal.spec_code() == 524,
        CountryCode::Netherlands.spec_code() == 528,
        CountryCode::NewCaledonia.spec_code() == 540,
        CountryCode::Vanuatu.spec_code() == 548,
        CountryCode::NewZealand.spec_code() == 554,
        CountryCode::Nicaragua.spec_code() == 558,
        CountryCode::Niger.spec_code() == 562,
        CountryCode::Nigeria.spec_code() == 566,
        CountryCode::Norway.spec_code() == 578,
        CountryCode::MicronesiaFederatedStatesOf.spec_code() == 583,
        CountryCode::MarshallIslands.spec_code() == 584,
        CountryCode::Palau.spec_code() == 585,
        CountryCode::Pakistan.spec_code() == 586,
        CountryCode::Panama.spec_code() == 591,
        CountryCode::PapuaNewGuinea.spec_code() == 598,
        CountryCode::Paraguay.spec_code() == 600,
        CountryCode::Peru.spec_code() == 604,
        CountryCode::Philippines.spec_code() == 608,
        CountryCode::Poland.spec_code() == 616,
        CountryCode::Portugal.spec_code() == 620,
        CountryCode::GuineaBissau.spec_code() == 624,
        CountryCode::TimorLeste.spec_code() == 626,
        CountryCode::PuertoRico.spec_code() == 630,
        CountryCode::Qatar.spec_code() == 634,
        CountryCode::Romania.spec_code() == 642,
        CountryCode::RussianFederation.spec_code() == 643,
        CountryCode::Rwanda.spec_code() == 646,
        CountryCode::SaintKittsAndNevis.spec_code() == 659,
        CountryCode::SaintLucia.spec_code() == 662,
        CountryCode::SaintVincentAndTheGrenadines.spec_code() == 670,
        CountryCode::SanMarino.spec_code() == 674,
        CountryCode::SaoTomeAndPrincipe.spec_code() == 678,
        CountryCode::SaudiArabia.spec_code() == 682,
        CountryCode::Senegal.spec_code() == 686,
        CountryCode::Serbia.spec_code() == 688,
        CountryCode::Seychelles.spec_code() == 690,
        CountryCode::SierraLeone.spec_code() == 694,
        CountryCode::Singapore.spec_code() == 702,
        CountryCode::Slovakia.spec_code() == 703,
        CountryCode::Vietnam.spec_code() == 704,
        CountryCode::Slovenia.spec_code() == 705,
        CountryCode::Somalia.spec_code() == 706,
        CountryCode::SouthAfrica.spec_code() == 710,
        CountryCode::Zimbabwe.spec_code() == 716,
        CountryCode::Spain.spec_code() == 724,
        CountryCode::SouthSudan.spec_code() == 728,
        CountryCode::Sudan.spec_code() == 729,
        CountryCode::WesternSahara.spec_code() == 732,
        CountryCode::Suriname.spec_code() == 740,
        CountryCode::Swaziland.spec_code() == 748,
        CountryCode::Sweden.spec_code() == 752,
        CountryCode::Switzerland.spec_code() == 756,
        CountryCode::SyrianArabRepublic.spec_code() == 760,
        CountryCode::Tajikistan.spec_code() == 762,
        CountryCode::Thailand.spec_code() == 764,
        CountryCode::Togo.spec_code() == 768,
        CountryCode::Tonga.spec_code() == 776,
        CountryCode::TrinidadAndTobago.spec_code() == 780,
        CountryCode::UnitedArabEmirates.spec_code() == 784,
        CountryCode::Tunisia.spec_code() == 788,
        CountryCode::Turkey.spec_code() == 792,
        CountryCode::Turkmenistan.spec_code() == 795,
        CountryCode::Tuvalu.spec_code() == 798,
        CountryCode::Uganda.spec_code() == 800,
        CountryCode::Ukraine.spec_code() == 804,
        CountryCode::MacedoniaTheFormerYugoslavRepublicOf.spec_code() == 807,
        CountryCode::Egypt.spec_code() == 818,
        CountryCode::UnitedKingdom.spec_code() == 826,
        CountryCode::TanzaniaUnitedRepublicOf.spec_code() == 834,
        CountryCode::UnitedStates.spec_code() == 840,
        CountryCode::BurkinaFaso.spec_code() == 854,
        CountryCode::Uruguay.spec_code() == 858,
        CountryCode::Uzbekistan.spec_code() == 860,
        CountryCode::Venezuela.spec_code() == 862,
        CountryCode::Samoa.spec_code() == 882,
        CountryCode::Yemen.spec_code() == 887,
        CountryCode::Zambia.spec_code() == 894,
        CountryCode::spec_from_code(4) == Some(CountryCode::Afghanistan),
        CountryCode::spec_from_code(8) == Some(CountryCode::Albania),
        CountryCode::spec_from_code(12) == Some(CountryCode::Algeria),
        CountryCode::spec_from_code(20) == Some(CountryCode::Andorra),
        CountryCode::spec_from_code(24) == Some(CountryCode::Angola),
        CountryCode::spec_from_code(28) == Some(CountryCode::AntiguaAndBarbuda),
        CountryCode::spec_from_code(31) == Some(CountryCode::Azerbaijan),
        CountryCode::spec_from_code(32) == Some(CountryCode::Argentina),
        CountryCode::spec_from_code(36) == Some(CountryCode::Australia),
        CountryCode::spec_from_code(40) == Some(CountryCode::Austria),
        CountryCode::spec_from_code(44) == Some(CountryCode::Bahamas),
        CountryCode::spec_from_code(48) == Some(CountryCode::Bahrain),
        CountryCode::spec_from_code(50) == Some(CountryCode::Bangladesh),
        CountryCode::spec_from_code(51) == Some(CountryCode::Armenia),
        CountryCode::spec_from_code(52) == Some(CountryCode::Barbados),
        CountryCode::spec_from_code(56) == Some(CountryCode::Belgium),
        CountryCode::spec_from_code(64) == Some(CountryCode::Bhutan),
        CountryCode::spec_from_code(68) == Some(CountryCode::Bolivia),
        CountryCode::spec_from_code(70) == Some(CountryCode::BosniaAndHerzegovina),
        CountryCode::spec_from_code(72) == Some(CountryCode::Botswana),
        CountryCode::spec_from_code(76) == Some(CountryCode::Brazil),
        CountryCode::spec_from_code(84) == Some(CountryCode::Belize),
        CountryCode::spec_from_code(90) == Some(CountryCode::SolomonIslands),
        CountryCode::spec_from_code(96) == Some(CountryCode::BruneiDarussalam),
        CountryCode::spec_from_code(100) == Some(CountryCode::Bulgaria),
        CountryCode::spec_from_code(104) == Some(CountryCode::Myanmar),
        CountryCode::spec_from_code(108) == Some(CountryCode::Burundi),
        CountryCode::spec_from_code(112) == Some(CountryCode::Belarus),
        CountryCode::spec_from_code(116) == Some(CountryCode::Cambodia),
        CountryCode::spec_from_code(120) == Some(CountryCode::Cameroon),
        CountryCode::spec_from_code(124) == Some(CountryCode::Canada),
        CountryCode::spec_from_code(132) == Some(CountryCode::CapeVerde),
        CountryCode::spec_from_code(140) == Some(CountryCode::CentralAfricanRepublic),
        CountryCode::spec_from_code(144) == Some(CountryCode::SriLanka),
        CountryCode::spec_from_code(148) == Some(CountryCode::Chad),
        CountryCode::spec_from_code(152) == Some(CountryCode::Chile),
        CountryCode::spec_from_code(156) == Some(CountryCode::China),
        CountryCode::spec_from_code(158) == Some(CountryCode::TaiwanProvinceOfChina),
        CountryCode::spec_from_code(170) == Some(CountryCode::Colombia),
        CountryCode::spec_from_code(174) == Some(CountryCode::Comoros),
        CountryCode::spec_from_code(178) == Some(CountryCode::Congo),
        CountryCode::spec_from_code(180) == Some(CountryCode::Zaire),
        CountryCode::spec_from_code(188) == Some(CountryCode::CostaRica),
        CountryCode::spec_from_code(191) == Some(CountryCode::Croatia),
        CountryCode::spec_from_code(192) == Some(CountryCode::Cuba),
        CountryCode::spec_from_code(196) == Some(CountryCode::Cyprus),
        CountryCode::spec_from_code(203) == Some(CountryCode::CzechRepublic),
        CountryCode::spec_from_code(204) == Some(CountryCode::Benin),
        CountryCode::spec_from_code(208) == Some(CountryCode::Denmark),
        CountryCode::spec_from_code(212) == Some(CountryCode::Dominica),
        CountryCode::spec_from_code(214) == Some(CountryCode::DominicanRepublic),
        CountryCode::spec_from_code(218) == Some(CountryCode::Ecuador),
        CountryCode::spec_from_code(222) == Some(CountryCode::ElSalvador),
        CountryCode::spec_from_code(226) == Some(CountryCode::EquatorialGuinea),
        CountryCode::spec_from_code(231) == Some(CountryCode::Ethiopia),
        CountryCode::spec_from_code(232) == Some(CountryCode::Eritrea),
        CountryCode::spec_from_code(233) == Some(CountryCode::Estonia),
        CountryCode::spec_from_code(242) == Some(CountryCode::Fiji),
        CountryCode::spec_from_code(246) == Some(CountryCode::Finland),
        CountryCode::spec_from_code(250) == Some(CountryCode::France),
        CountryCode::spec_from_code(258) == Some(CountryCode::FrenchPolynesia),
        CountryCode::spec_from_code(262) == Some(CountryCode::Djibouti),
        CountryCode::spec_from_code(266) == Some(CountryCode::Gabon),
        CountryCode::spec_from_code(268) == Some(CountryCode::Georgia),
        CountryCode::spec_from_code(270) == Some(CountryCode::Gambia),
        CountryCode::spec_from_code(276) == Some(CountryCode::Germany),
        CountryCode::spec_from_code(288) == Some(CountryCode::Ghana),
        CountryCode::spec_from_code(296) == Some(CountryCode::Kiribati),
        CountryCode::spec_from_code(300) == Some(CountryCode::Greece),
        CountryCode::spec_from_code(308) == Some(CountryCode::Grenada),
        CountryCode::spec_from_code(320) == Some(CountryCode::Guatemala),
        CountryCode::spec_from_code(324) == Some(CountryCode::Guinea),
        CountryCode::spec_from_code(328) == Some(CountryCode::Guyana),
        CountryCode::spec_from_code(332) == Some(CountryCode::Haiti),
        CountryCode::spec_from_code(336) == Some(CountryCode::HolySeeVaticanCityState),
        CountryCode::spec_from_code(340) == Some(CountryCode::Honduras),
        CountryCode::spec_from_code(344) == Some(CountryCode::HongKong),
        CountryCode::spec_from_code(348) == Some(CountryCode::Hungary),
        CountryCode::spec_from_code(352) == Some(CountryCode::Iceland),
        CountryCode::spec_from_code(356) == Some(CountryCode::India),
        CountryCode::spec_from_code(360) == Some(CountryCode::Indonesia),
        CountryCode::spec_from_code(364) == Some(CountryCode::IranIslamicRepublicOf),
        CountryCode::spec_from_code(368) == Some(CountryCode::Iraq),
        CountryCode::spec_from_code(372) == Some(CountryCode::Ireland),
        CountryCode::spec_from_code(376) == Some(CountryCode::Israel),
        CountryCode::spec_from_code(380) == Some(CountryCode::Italy),
        CountryCode::spec_from_code(384) == Some(CountryCode::CoteDIvoire),
        CountryCode::spec_from_code(388) == Some(CountryCode::Jamaica),
        CountryCode::spec_from_code(392) == Some(CountryCode::Japan),
        CountryCode::spec_from_code(398) == Some(CountryCode::Kazakhstan),
        CountryCode::spec_from_code(400) == Some(CountryCode::Jordan),
        CountryCode::spec_from_code(404) == Some(CountryCode::Kenya),
        CountryCode::spec_from_code(408) == Some(CountryCode::KoreaDemocraticPeoplesRepublicOf),
        CountryCode::spec_from_code(410) == Some(CountryCode::KoreaRepublicOf),
        CountryCode::spec_from_code(414) == Some(CountryCode::Kuwait),
        CountryCode::spec_from_code(417) == Some(CountryCode::Kyrgyzstan),
        CountryCode::spec_from_code(418) == Some(CountryCode::LaoPeoplesDemocraticRepublic),
        CountryCode::spec_from_code(422) == Some(CountryCode::Lebanon),
        CountryCode::spec_from_code(426) == Some(CountryCode::Lesotho),
        CountryCode::spec_from_code(428) == Some(CountryCode::Latvia),
        CountryCode::spec_from_code(430) == Some(CountryCode::Liberia),
        CountryCode::spec_from_code(434) == Some(CountryCode::LibyanArabJamahiriya),
        CountryCode::spec_from_code(438) == Some(CountryCode::Liechtenstein),
        CountryCode::spec_from_code(440) == Some(CountryCode::Lithuania),
        CountryCode::spec_from_code(442) == Some(CountryCode::Luxembourg),
        CountryCode::spec_from_code(446) == Some(CountryCode::Macao),
        CountryCode::spec_from_code(450) == Some(CountryCode::Madagascar),
        CountryCode::spec_from_code(454) == Some(CountryCode::Malawi),
        CountryCode::spec_from_code(458) == Some(CountryCode::Malaysia),
        CountryCode::spec_from_code(462) == Some(CountryCode::Maldives),
        CountryCode::spec_from_code(466) == Some(CountryCode::Mali),
        CountryCode::spec_from_code(470) == Some(CountryCode::Malta),
        CountryCode::spec_from_code(478) == Some(CountryCode::Mauritania),
        CountryCode::spec_from_code(480) == Some(CountryCode::Mauritius),
        CountryCode::spec_from_code(484) == Some(CountryCode::Mexico),
        CountryCode::spec_from_code(492) == Some(CountryCode::Monaco),
        CountryCode::spec_from_code(496) == Some(CountryCode::Mongolia),
        CountryCode::spec_from_code(498) == Some(CountryCode::MoldovaRepublicOf),
        CountryCode::spec_from_code(499) == Some(CountryCode::Montenegro),
        CountryCode::spec_from_code(504) == Some(CountryCode::Morocco),
        CountryCode::spec_from_code(508) == Some(CountryCode::Mozambique),
        CountryCode::spec_from_code(512) == Some(CountryCode::Oman),
        CountryCode::spec_from_code(516) == Some(CountryCode::Namibia),
        CountryCode::spec_from_code(520) == Some(CountryCode::Nauru),
        CountryCode::spec_from_code(524) == Some(CountryCode::Nepal),
        CountryCode::spec_from_code(528) == Some(CountryCode::Netherlands),
        CountryCode::spec_from_code(540) == Some(CountryCode::NewCaledonia),
        CountryCode::spec_from_code(548) == Some(CountryCode::Vanuatu),
        CountryCode::spec_from_code(554) == Some(CountryCode::NewZealand),
        CountryCode::spec_from_code(558) == Some(CountryCode::Nicaragua),
        CountryCode::spec_from_code(562) == Some(CountryCode::Niger),
        CountryCode::spec_from_code(566) == Some(CountryCode::Nigeria),
        CountryCode::spec_from_code(578) == Some(CountryCode::Norway),
        CountryCode::spec_from_code(583) == Some(CountryCode::MicronesiaFederatedStatesOf),
        CountryCode::spec_from_code(584) == Some(CountryCode::MarshallIslands),
        CountryCode::spec_from_code(585) == Some(CountryCode::Palau),
        CountryCode::spec_from_code(586) == Some(CountryCode::Pakistan),
        CountryCode::spec_from_code(591) == Some(CountryCode::Panama),
        CountryCode::spec_from_code(598) == Some(CountryCode::PapuaNewGuinea),
        CountryCode::spec_from_code(600) == Some(CountryCode::Paraguay),
        CountryCode::spec_from_code(604) == Some(CountryCode::Peru),
        CountryCode::spec_from_code(608) == Some(CountryCode::Philippines),
        CountryCode::spec_from_code(616) == Some(CountryCode::Poland),
        CountryCode::spec_from_code(620) == Some(CountryCode::Portugal),
        CountryCode::spec_from_code(624) == Some(CountryCode::GuineaBissau),
        CountryCode::spec_from_code(626) == Some(CountryCode::TimorLeste),
        CountryCode::spec_from_code(630) == Some(CountryCode::PuertoRico),
        CountryCode::spec_from_code(634) == Some(CountryCode::Qatar),
        CountryCode::spec_from_code(642) == Some(CountryCode::Romania),
        CountryCode::spec_from_code(643) == Some(CountryCode::RussianFederation),
        CountryCode::spec_from_code(646) == Some(CountryCode::Rwanda),
        CountryCode::spec_from_code(659) == Some(CountryCode::SaintKittsAndNevis),
        CountryCode::spec_from_code(662) == Some(CountryCode::SaintLucia),
        CountryCode::spec_from_code(670) == Some(CountryCode::SaintVincentAndTheGrenadines),
        CountryCode::spec_from_code(674) == Some(CountryCode::SanMarino),
        CountryCode::spec_from_code(678) == Some(CountryCode::SaoTomeAndPrincipe),
        CountryCode::spec_from_code(682) == Some(CountryCode::SaudiArabia),
        CountryCode::spec_from_code(686) == Some(CountryCode::Senegal),
        CountryCode::spec_from_code(688) == Some(CountryCode::Serbia),
        CountryCode::spec_from_code(690) == Some(CountryCode::Seychelles),
        CountryCode::spec_from_code(694) == Some(CountryCode::SierraLeone),
        CountryCode::spec_from_code(702) == Some(CountryCode::Singapore),
        CountryCode::spec_from_code(703) == Some(CountryCode::Slovakia),
        CountryCode::spec_from_code(704) == Some(CountryCode::Vietnam),
        CountryCode::spec_from_code(705) == Some(CountryCode::Slovenia),
        CountryCode::spec_from_code(706) == Some(CountryCode::Somalia),
        CountryCode::spec_from_code(710) == Some(CountryCode::SouthAfrica),
        CountryCode::spec_from_code(716) == Some(CountryCode::Zimbabwe),
        CountryCode::spec_from_code(724) == Some(CountryCode::Spain),
        CountryCode::spec_from_code(728) == Some(CountryCode::SouthSudan),
        CountryCode::spec_from_code(729) == Some(CountryCode::Sudan),
        CountryCode::spec_from_code(732) == Some(CountryCode::WesternSahara),
        CountryCode::spec_from_code(740) == Some(CountryCode::Suriname),
        CountryCode::spec_from_code(748) == Some(CountryCode::Swaziland),
        CountryCode::spec_from_code(752) == Some(CountryCode::Sweden),
        CountryCode::spec_from_code(756) == Some(CountryCode::Switzerland),
        CountryCode::spec_from_code(760) == Some(CountryCode::SyrianArabRepublic),
        CountryCode::spec_from_code(762) == Some(CountryCode::Tajikistan),
        CountryCode::spec_from_code(764) == Some(CountryCode::Thailand),
        CountryCode::spec_from_code(768) == Some(CountryCode::Togo),
        CountryCode::spec_from_code(776) == Some(CountryCode::Tonga),
        CountryCode::spec_from_code(780) == Some(CountryCode::TrinidadAndTobago),
        CountryCode::spec_from_code(784) == Some(CountryCode::UnitedArabEmirates),
        CountryCode::spec_from_code(788) == Some(CountryCode::Tunisia),
        CountryCode::spec_from_code(792) == Some(CountryCode::Turkey),
        CountryCode::spec_from_code(795) == Some(CountryCode::Turkmenistan),
        CountryCode::spec_from_code(798) == Some(CountryCode::Tuvalu),
        CountryCode::spec_from_code(800) == Some(CountryCode::Uganda),
        CountryCode::spec_from_code(804) == Some(CountryCode::Ukraine),
        CountryCode::spec_from_code(807) == Some(CountryCode::MacedoniaTheFormerYugoslavRepublicOf),
        CountryCode::spec_from_code(818) == Some(CountryCode::Egypt),
        CountryCode::spec_from_code(826) == Some(CountryCode::UnitedKingdom),
        CountryCode::spec_from_code(834) == Some(CountryCode::TanzaniaUnitedRepublicOf),
        CountryCode::spec_from_code(840) == Some(CountryCode::UnitedStates),
        CountryCode::spec_from_code(854) == Some(CountryCode::BurkinaFaso),
        CountryCode::spec_from_code(858) == Some(CountryCode::Uruguay),
        CountryCode::spec_from_code(860) == Some(CountryCode::Uzbekistan),
        CountryCode::spec_from_code(862) == Some(CountryCode::Venezuela),
        CountryCode::spec_from_code(882) == Some(CountryCode::Samoa),
        CountryCode::spec_from_code(887) == Some(CountryCode::Yemen),
        CountryCode::spec_from_code(894) == Some(CountryCode::Zambia),
{
}

/// The TIS code of every region, and the region that each of those codes reads as.
#[verifier::rlimit(60)]
pub proof fn lemma_region_code_table()
    ensures
        RegionCode::Africa.spec_code() == 2100,
        RegionCode::America.spec_code() == 2101,
        RegionCode::AmericanContinent.spec_code() == 2102,
        RegionCode::Antilles.spec_code() == 2103,
        RegionCode::ApecCountries.spec_code() == 2104,
        RegionCode::AseanCountries.spec_code() == 2105,
        RegionCode::Asia.spec_code() == 2106,
        RegionCode::Australasia.spec_code() == 2107,
        RegionCode::Balkans.spec_code() == 2108,
        RegionCode::BalticStates.spec_code() == 2109,
        RegionCode::Benelux.spec_code() == 2110,
        RegionCode::BritishIsles.spec_code() == 2111,
        RegionCode::BritishWestIndies.spec_code() == 2112,
        RegionCode::CentralAmerica.spec_code() == 2113,
        RegionCode::Commonwealth.spec_code() == 2114,
        RegionCode::CommonwealthAfricanTerritories.spec_code() == 2115,
        RegionCode::CommonwealthAsianTerritories.spec_code() == 2116,
        RegionCode::CommonwealthAustralasianTerritories.spec_code() == 2117,
        RegionCode::CommonwealthOfIndependentStates.spec_code() == 2118,
        RegionCode::EasternEurope.spec_code() == 2119,
        RegionCode::Europe.spec_code() == 2120,
        RegionCode::EuropeanEconomicArea.spec_code() == 2121,
        RegionCode::EuropeanContinent.spec_code() == 2122,
        RegionCode::EuropeanUnion.spec_code() == 2123,
        RegionCode::GsaCountries.spec_code() == 2124,
        RegionCode::MiddleEast.spec_code() == 2125,
        RegionCode::NaftaCountries.spec_code() == 2126,
        RegionCode::NordicCountries.spec_code() == 2127,
        RegionCode::NorthAfrica.spec_code() == 2128,
        RegionCode::NorthAmerica.spec_code() == 2129,
        RegionCode::Oceania.spec_code() == 2130,
        RegionCode::Scandinavia.spec_code() == 2131,
        RegionCode::SouthAmerica.spec_code() == 2132,
        RegionCode::SouthEastAsia.spec_code() == 2133,
        RegionCode::WestIndies.spec_code() == 2134,
        RegionCode::World.spec_code() == 2136,
        RegionCode::SacemTerritories.spec_code() == 3017,
        RegionCode::spec_from_code(2100) == Some(RegionCode::Africa),
        RegionCode::spec_from_code(2101) == Some(RegionCode::America),
        RegionCode::spec_from_code(2102) == Some(RegionCode::AmericanContinent),
        RegionCode::spec_from_code(2103) == Some(RegionCode::Antilles),
        RegionCode::spec_from_code(2104) == Some(RegionCode::ApecCountries),
        RegionCode::spec_from_code(2105) == Some(RegionCode::AseanCountries),
        RegionCode::spec_from_code(2106) == Some(RegionCode::Asia),
        RegionCode::spec_from_code(2107) == Some(RegionCode::Australasia),
        RegionCode::spec_from_code(2108) == Some(RegionCode::Balkans),
        RegionCode::spec_from_code(2109) == Some(RegionCode::BalticStates),
        RegionCode::spec_from_code(2110) == Some(RegionCode::Benelux),
        RegionCode::spec_from_code(2111) == Some(RegionCode::BritishIsles),
        RegionCode::spec_from_code(2112) == Some(RegionCode::BritishWestIndies),
        RegionCode::spec_from_code(2113) == Some(RegionCode::CentralAmerica),
        RegionCode::spec_from_code(2114) == Some(RegionCode::Commonwealth),
        RegionCode::spec_from_code(2115) == Some(RegionCode::CommonwealthAfricanTerritories),
        RegionCode::spec_from_code(2116) == Some(RegionCode::CommonwealthAsianTerritories),
        RegionCode::spec_from_code(2117) == Some(RegionCode::CommonwealthAustralasianTerritories),
        RegionCode::spec_from_code(2118) == Some(RegionCode::CommonwealthOfIndependentStates),
        RegionCode::spec_from_code(2119) == Some(RegionCode::EasternEurope),
        RegionCode::spec_from_code(2120) == Some(RegionCode::Europe),
        RegionCode::spec_from_code(2121) == Some(RegionCode::EuropeanEconomicArea),
        RegionCode::spec_from_code(2122) == Some(RegionCode::EuropeanContinent),
        RegionCode::spec_from_code(2123) == Some(RegionCode::EuropeanUnion),
        RegionCode::spec_from_code(2124) == Some(RegionCode::GsaCountries),
        RegionCode::spec_from_code(2125) == Some(RegionCode::MiddleEast),
        RegionCode::spec_from_code(2126) == Some(RegionCode::NaftaCountries),
        RegionCode::spec_from_code(2127) == Some(RegionCode::NordicCountries),
        RegionCode::spec_from_code(2128) == Some(RegionCode::NorthAfrica),
        RegionCode::spec_from_code(2129) == Some(RegionCode::NorthAmerica),
        RegionCode::spec_from_code(2130) == Some(RegionCode::Oceania),
        RegionCode::spec_from_code(2131) == Some(RegionCode::Scandinavia),
        RegionCode::spec_from_code(2132) == Some(RegionCode::SouthAmerica),
        RegionCode::spec_from_code(2133) == Some(RegionCode::SouthEastAsia),
        RegionCode::spec_from_code(2134) == Some(RegionCode::WestIndies),
        RegionCode::spec_from_code(2136) == Some(RegionCode::World),
        RegionCode::spec_from_code(3017) == Some(RegionCode::SacemTerritories),
{
}

} // verus!
