//! Model registry: the closed set of device families, their capability
//! predicates, the fixed model catalog, the SKU table, and the derivation
//! of a SKU from a device serial number.

use vstd::prelude::*;

use crate::text::str_eq;

verus! {

/// A device family. Capabilities are pure functions of this value.
#[derive(Debug, Clone, Copy, PartialEq, Eq, Hash, Structural)]
pub enum ModelBase {
    Unknown,
    B181,
    B157,
    B155,
    B163,
    B171,
    B162,
    B164,
    B168,
    B172,
    B174,
}

/// The family named by `code`, or `Unknown`.
pub open spec fn spec_base_from_code(code: Seq<char>) -> ModelBase {
    if code == "B181"@ {
        ModelBase::B181
    } else if code == "B157"@ {
        ModelBase::B157
    } else if code == "B155"@ {
        ModelBase::B155
    } else if code == "B163"@ {
        ModelBase::B163
    } else if code == "B171"@ {
        ModelBase::B171
    } else if code == "B162"@ {
        ModelBase::B162
    } else if code == "B164"@ {
        ModelBase::B164
    } else if code == "B168"@ {
        ModelBase::B168
    } else if code == "B172"@ {
        ModelBase::B172
    } else if code == "B174"@ {
        ModelBase::B174
    } else {
        ModelBase::Unknown
    }
}

/// The display code of a family.
pub open spec fn spec_base_as_str(base: ModelBase) -> Seq<char> {
    match base {
        ModelBase::Unknown => "UNKNOWN"@,
        ModelBase::B181 => "B181"@,
        ModelBase::B157 => "B157"@,
        ModelBase::B155 => "B155"@,
        ModelBase::B163 => "B163"@,
        ModelBase::B171 => "B171"@,
        ModelBase::B162 => "B162"@,
        ModelBase::B164 => "B164"@,
        ModelBase::B168 => "B168"@,
        ModelBase::B172 => "B172"@,
        ModelBase::B174 => "B174"@,
    }
}

impl ModelBase {
    /// Parses a family code; anything unrecognised maps to `Unknown`.
    pub fn from_code(code: &str) -> (base: Self)
        ensures
            base == spec_base_from_code(code@),
    {
        if str_eq(code, "B181") {
            ModelBase::B181
        } else if str_eq(code, "B157") {
            ModelBase::B157
        } else if str_eq(code, "B155") {
            ModelBase::B155
        } else if str_eq(code, "B163") {
            ModelBase::B163
        } else if str_eq(code, "B171") {
            ModelBase::B171
        } else if str_eq(code, "B162") {
            ModelBase::B162
        } else if str_eq(code, "B164") {
            ModelBase::B164
        } else if str_eq(code, "B168") {
            ModelBase::B168
        } else if str_eq(code, "B172") {
            ModelBase::B172
        } else if str_eq(code, "B174") {
            ModelBase::B174
        } else {
            ModelBase::Unknown
        }
    }

    /// The display code of this family.
    pub fn as_str(&self) -> (code: &'static str)
        ensures
            code@ == spec_base_as_str(*self),
    {
        match self {
            ModelBase::Unknown => "UNKNOWN",
            ModelBase::B181 => "B181",
            ModelBase::B157 => "B157",
            ModelBase::B155 => "B155",
            ModelBase::B163 => "B163",
            ModelBase::B171 => "B171",
            ModelBase::B162 => "B162",
            ModelBase::B164 => "B164",
            ModelBase::B168 => "B168",
            ModelBase::B172 => "B172",
            ModelBase::B174 => "B174",
        }
    }

    /// Case LED colors exist only on the B181 family.
    pub fn supports_case_led(self) -> (r: bool)
        ensures
            r == (self is B181),
    {
        matches!(self, ModelBase::B181)
    }

    /// Personalized ANC exists only on the B155 family.
    pub fn supports_personalized_anc(self) -> (r: bool)
        ensures
            r == (self is B155),
    {
        matches!(self, ModelBase::B155)
    }

    /// Enhanced bass exists on B171, B172, B168 and B162.
    pub fn supports_enhanced_bass(self) -> (r: bool)
        ensures
            r == (self is B171 || self is B172 || self is B168 || self is B162),
    {
        matches!(self, ModelBase::B171 | ModelBase::B172 | ModelBase::B168 | ModelBase::B162)
    }

    /// In-ear detection exists on every family but B174.
    pub fn supports_in_ear_detection(self) -> (r: bool)
        ensures
            r == !(self is B174),
    {
        !matches!(self, ModelBase::B174)
    }

    /// The custom equalizer exists on every family but B181.
    pub fn supports_custom_eq(self) -> (r: bool)
        ensures
            r == !(self is B181),
    {
        !matches!(self, ModelBase::B181)
    }

    /// Listening modes exist on B168 and B172.
    pub fn supports_listening_modes(self) -> (r: bool)
        ensures
            r == (self is B168 || self is B172),
    {
        matches!(self, ModelBase::B168 | ModelBase::B172)
    }
}

/// A catalog entry: a concrete model variant.
#[derive(Debug, Clone, Copy)]
pub struct ModelInfo {
    pub id: &'static str,
    pub name: &'static str,
    pub base: ModelBase,
    pub anc_capable: bool,
}

/// Mathematical model of a catalog entry.
pub struct ModelInfoView {
    pub id: Seq<char>,
    pub name: Seq<char>,
    pub base: ModelBase,
    pub anc_capable: bool,
}

impl View for ModelInfo {
    type V = ModelInfoView;

    open spec fn view(&self) -> ModelInfoView {
        ModelInfoView {
            id: self.id@,
            name: self.name@,
            base: self.base,
            anc_capable: self.anc_capable,
        }
    }
}

/// The fixed model catalog, as a lookup by model id.
pub open spec fn spec_model_from_id(id: Seq<char>) -> Option<ModelInfoView> {
    if id == "ear_1_white"@ {
        Some(ModelInfoView {
            id: "ear_1_white"@,
            name: "Nothing Ear (1)"@,
            base: ModelBase::B181,
            anc_capable: true,
        })
    } else if id == "ear_1_black"@ {
        Some(ModelInfoView {
            id: "ear_1_black"@,
            name: "Nothing Ear (1)"@,
            base: ModelBase::B181,
            anc_capable: true,
        })
    } else if id == "ear_stick"@ {
        Some(ModelInfoView {
            id: "ear_stick"@,
            name: "Nothing Ear (stick)"@,
            base: ModelBase::B157,
            anc_capable: false,
        })
    } else if id == "ear_2_white"@ {
        Some(ModelInfoView {
            id: "ear_2_white"@,
            name: "Nothing Ear (2)"@,
            base: ModelBase::B155,
            anc_capable: true,
        })
    } else if id == "ear_2_black"@ {
        Some(ModelInfoView {
            id: "ear_2_black"@,
            name: "Nothing Ear (2)"@,
            base: ModelBase::B155,
            anc_capable: true,
        })
    } else if id == "corsola_orange"@ {
        Some(ModelInfoView {
            id: "corsola_orange"@,
            name: "CMF Buds Pro"@,
            base: ModelBase::B163,
            anc_capable: true,
        })
    } else if id == "corsola_black"@ {
        Some(ModelInfoView {
            id: "corsola_black"@,
            name: "CMF Buds Pro"@,
            base: ModelBase::B163,
            anc_capable: true,
        })
    } else if id == "corsola_white"@ {
        Some(ModelInfoView {
            id: "corsola_white"@,
            name: "CMF Buds Pro"@,
            base: ModelBase::B163,
            anc_capable: true,
        })
    } else if id == "entei_black"@ {
        Some(ModelInfoView {
            id: "entei_black"@,
            name: "Nothing Ear"@,
            base: ModelBase::B171,
            anc_capable: true,
        })
    } else if id == "entei_white"@ {
        Some(ModelInfoView {
            id: "entei_white"@,
            name: "Nothing Ear"@,
            base: ModelBase::B171,
            anc_capable: true,
        })
    } else if id == "cleffa_black"@ {
        Some(ModelInfoView {
            id: "cleffa_black"@,
            name: "Nothing Ear (a)"@,
            base: ModelBase::B162,
            anc_capable: true,
        })
    } else if id == "cleffa_white"@ {
        Some(ModelInfoView {
            id: "cleffa_white"@,
            name: "Nothing Ear (a)"@,
            base: ModelBase::B162,
            anc_capable: true,
        })
    } else if id == "cleffa_yellow"@ {
        Some(ModelInfoView {
            id: "cleffa_yellow"@,
            name: "Nothing Ear (a)"@,
            base: ModelBase::B162,
            anc_capable: true,
        })
    } else if id == "crobat_orange"@ {
        Some(ModelInfoView {
            id: "crobat_orange"@,
            name: "CMF Neckband Pro"@,
            base: ModelBase::B164,
            anc_capable: true,
        })
    } else if id == "crobat_white"@ {
        Some(ModelInfoView {
            id: "crobat_white"@,
            name: "CMF Neckband Pro"@,
            base: ModelBase::B164,
            anc_capable: true,
        })
    } else if id == "crobat_black"@ {
        Some(ModelInfoView {
            id: "crobat_black"@,
            name: "CMF Neckband Pro"@,
            base: ModelBase::B164,
            anc_capable: true,
        })
    } else if id == "donphan_black"@ {
        Some(ModelInfoView {
            id: "donphan_black"@,
            name: "CMF Buds"@,
            base: ModelBase::B168,
            anc_capable: true,
        })
    } else if id == "donphan_white"@ {
        Some(ModelInfoView {
            id: "donphan_white"@,
            name: "CMF Buds"@,
            base: ModelBase::B168,
            anc_capable: true,
        })
    } else if id == "donphan_orange"@ {
        Some(ModelInfoView {
            id: "donphan_orange"@,
            name: "CMF Buds"@,
            base: ModelBase::B168,
            anc_capable: true,
        })
    } else if id == "espeon_black"@ {
        Some(ModelInfoView {
            id: "espeon_black"@,
            name: "CMF Buds Pro 2"@,
            base: ModelBase::B172,
            anc_capable: true,
        })
    } else if id == "espeon_white"@ {
        Some(ModelInfoView {
            id: "espeon_white"@,
            name: "CMF Buds Pro 2"@,
            base: ModelBase::B172,
            anc_capable: true,
        })
    } else if id == "espeon_orange"@ {
        Some(ModelInfoView {
            id: "espeon_orange"@,
            name: "CMF Buds Pro 2"@,
            base: ModelBase::B172,
            anc_capable: true,
        })
    } else if id == "espeon_blue"@ {
        Some(ModelInfoView {
            id: "espeon_blue"@,
            name: "CMF Buds Pro 2"@,
            base: ModelBase::B172,
            anc_capable: true,
        })
    } else if id == "flaaffy_white"@ {
        Some(ModelInfoView {
            id: "flaaffy_white"@,
            name: "Nothing Ear (open)"@,
            base: ModelBase::B174,
            anc_capable: false,
        })
    } else {
        None
    }
}

/// The fixed SKU table: the model id a SKU names, if any.
pub open spec fn spec_sku_to_model_id(sku: Seq<char>) -> Option<Seq<char>> {
    if sku == "01"@ {
        Some("ear_1_white"@)
    } else if sku == "02"@ {
        Some("ear_1_black"@)
    } else if sku == "03"@ {
        Some("ear_1_white"@)
    } else if sku == "04"@ {
        Some("ear_1_black"@)
    } else if sku == "06"@ {
        Some("ear_1_black"@)
    } else if sku == "07"@ {
        Some("ear_1_white"@)
    } else if sku == "08"@ {
        Some("ear_1_black"@)
    } else if sku == "10"@ {
        Some("ear_1_black"@)
    } else if sku == "14"@ {
        Some("ear_stick"@)
    } else if sku == "15"@ {
        Some("ear_stick"@)
    } else if sku == "16"@ {
        Some("ear_stick"@)
    } else if sku == "17"@ {
        Some("ear_2_white"@)
    } else if sku == "18"@ {
        Some("ear_2_white"@)
    } else if sku == "19"@ {
        Some("ear_2_white"@)
    } else if sku == "27"@ {
        Some("ear_2_black"@)
    } else if sku == "28"@ {
        Some("ear_2_black"@)
    } else if sku == "29"@ {
        Some("ear_2_black"@)
    } else if sku == "30"@ {
        Some("corsola_black"@)
    } else if sku == "31"@ {
        Some("corsola_black"@)
    } else if sku == "32"@ {
        Some("corsola_white"@)
    } else if sku == "33"@ {
        Some("corsola_white"@)
    } else if sku == "34"@ {
        Some("corsola_orange"@)
    } else if sku == "35"@ {
        Some("corsola_orange"@)
    } else if sku == "48"@ {
        Some("crobat_orange"@)
    } else if sku == "49"@ {
        Some("crobat_white"@)
    } else if sku == "50"@ {
        Some("crobat_black"@)
    } else if sku == "51"@ {
        Some("crobat_black"@)
    } else if sku == "52"@ {
        Some("crobat_white"@)
    } else if sku == "53"@ {
        Some("crobat_orange"@)
    } else if sku == "54"@ {
        Some("donphan_black"@)
    } else if sku == "55"@ {
        Some("donphan_black"@)
    } else if sku == "56"@ {
        Some("donphan_white"@)
    } else if sku == "57"@ {
        Some("donphan_white"@)
    } else if sku == "58"@ {
        Some("donphan_orange"@)
    } else if sku == "59"@ {
        Some("donphan_orange"@)
    } else if sku == "61"@ {
        Some("entei_black"@)
    } else if sku == "62"@ {
        Some("entei_white"@)
    } else if sku == "63"@ {
        Some("cleffa_black"@)
    } else if sku == "64"@ {
        Some("cleffa_white"@)
    } else if sku == "65"@ {
        Some("cleffa_yellow"@)
    } else if sku == "66"@ {
        Some("cleffa_black"@)
    } else if sku == "67"@ {
        Some("cleffa_white"@)
    } else if sku == "68"@ {
        Some("cleffa_yellow"@)
    } else if sku == "69"@ {
        Some("entei_black"@)
    } else if sku == "70"@ {
        Some("entei_white"@)
    } else if sku == "71"@ {
        Some("cleffa_black"@)
    } else if sku == "72"@ {
        Some("cleffa_white"@)
    } else if sku == "73"@ {
        Some("cleffa_yellow"@)
    } else if sku == "74"@ {
        Some("entei_black"@)
    } else if sku == "75"@ {
        Some("entei_white"@)
    } else if sku == "76"@ {
        Some("espeon_black"@)
    } else if sku == "77"@ {
        Some("espeon_white"@)
    } else if sku == "78"@ {
        Some("espeon_orange"@)
    } else if sku == "79"@ {
        Some("espeon_blue"@)
    } else if sku == "80"@ {
        Some("espeon_blue"@)
    } else if sku == "81"@ {
        Some("espeon_orange"@)
    } else if sku == "82"@ {
        Some("espeon_white"@)
    } else if sku == "83"@ {
        Some("espeon_black"@)
    } else if sku == "11200005"@ {
        Some("flaaffy_white"@)
    } else {
        None
    }
}

/// The catalog entry a SKU names, if any.
pub open spec fn spec_model_from_sku(sku: Seq<char>) -> Option<ModelInfoView> {
    match spec_sku_to_model_id(sku) {
        Some(id) => spec_model_from_id(id),
        None => None,
    }
}

/// Looks a model up by its catalog id.
pub fn model_from_id(id: &str) -> (r: Option<ModelInfo>)
    ensures
        match r {
            Some(info) => spec_model_from_id(id@) == Some(info@),
            None => spec_model_from_id(id@) is None,
        },
{
    if str_eq(id, "ear_1_white") {
        Some(ModelInfo {
            id: "ear_1_white",
            name: "Nothing Ear (1)",
            base: ModelBase::B181,
            anc_capable: true,
        })
    } else if str_eq(id, "ear_1_black") {
        Some(ModelInfo {
            id: "ear_1_black",
            name: "Nothing Ear (1)",
            base: ModelBase::B181,
            anc_capable: true,
        })
    } else if str_eq(id, "ear_stick") {
        Some(ModelInfo {
            id: "ear_stick",
            name: "Nothing Ear (stick)",
            base: ModelBase::B157,
            anc_capable: false,
        })
    } else if str_eq(id, "ear_2_white") {
        Some(ModelInfo {
            id: "ear_2_white",
            name: "Nothing Ear (2)",
            base: ModelBase::B155,
            anc_capable: true,
        })
    } else if str_eq(id, "ear_2_black") {
        Some(ModelInfo {
            id: "ear_2_black",
            name: "Nothing Ear (2)",
            base: ModelBase::B155,
            anc_capable: true,
        })
    } else if str_eq(id, "corsola_orange") {
        Some(ModelInfo {
            id: "corsola_orange",
            name: "CMF Buds Pro",
            base: ModelBase::B163,
            anc_capable: true,
        })
    } else if str_eq(id, "corsola_black") {
        Some(ModelInfo {
            id: "corsola_black",
            name: "CMF Buds Pro",
            base: ModelBase::B163,
            anc_capable: true,
        })
    } else if str_eq(id, "corsola_white") {
        Some(ModelInfo {
            id: "corsola_white",
            name: "CMF Buds Pro",
            base: ModelBase::B163,
            anc_capable: true,
        })
    } else if str_eq(id, "entei_black") {
        Some(ModelInfo {
            id: "entei_black",
            name: "Nothing Ear",
            base: ModelBase::B171,
            anc_capable: true,
        })
    } else if str_eq(id, "entei_white") {
        Some(ModelInfo {
            id: "entei_white",
            name: "Nothing Ear",
            base: ModelBase::B171,
            anc_capable: true,
        })
    } else if str_eq(id, "cleffa_black") {
        Some(ModelInfo {
            id: "cleffa_black",
            name: "Nothing Ear (a)",
            base: ModelBase::B162,
            anc_capable: true,
        })
    } else if str_eq(id, "cleffa_white") {
        Some(ModelInfo {
            id: "cleffa_white",
            name: "Nothing Ear (a)",
            base: ModelBase::B162,
            anc_capable: true,
        })
    } else if str_eq(id, "cleffa_yellow") {
        Some(ModelInfo {
            id: "cleffa_yellow",
            name: "Nothing Ear (a)",
            base: ModelBase::B162,
            anc_capable: true,
        })
    } else if str_eq(id, "crobat_orange") {
        Some(ModelInfo {
            id: "crobat_orange",
            name: "CMF Neckband Pro",
            base: ModelBase::B164,
            anc_capable: true,
        })
    } else if str_eq(id, "crobat_white") {
        Some(ModelInfo {
            id: "crobat_white",
            name: "CMF Neckband Pro",
            base: ModelBase::B164,
            anc_capable: true,
        })
    } else if str_eq(id, "crobat_black") {
        Some(ModelInfo {
            id: "crobat_black",
            name: "CMF Neckband Pro",
            base: ModelBase::B164,
            anc_capable: true,
        })
    } else if str_eq(id, "donphan_black") {
        Some(ModelInfo {
            id: "donphan_black",
            name: "CMF Buds",
            base: ModelBase::B168,
            anc_capable: true,
        })
    } else if str_eq(id, "donphan_white") {
        Some(ModelInfo {
            id: "donphan_white",
            name: "CMF Buds",
            base: ModelBase::B168,
            anc_capable: true,
        })
    } else if str_eq(id, "donphan_orange") {
        Some(ModelInfo {
            id: "donphan_orange",
            name: "CMF Buds",
            base: ModelBase::B168,
            anc_capable: true,
        })
    } else if str_eq(id, "espeon_black") {
        Some(ModelInfo {
            id: "espeon_black",
            name: "CMF Buds Pro 2",
            base: ModelBase::B172,
            anc_capable: true,
        })
    } else if str_eq(id, "espeon_white") {
        Some(ModelInfo {
            id: "espeon_white",
            name: "CMF Buds Pro 2",
            base: ModelBase::B172,
            anc_capable: true,
        })
    } else if str_eq(id, "espeon_orange") {
        Some(ModelInfo {
            id: "espeon_orange",
            name: "CMF Buds Pro 2",
            base: ModelBase::B172,
            anc_capable: true,
        })
    } else if str_eq(id, "espeon_blue") {
        Some(ModelInfo {
            id: "espeon_blue",
            name: "CMF Buds Pro 2",
            base: ModelBase::B172,
            anc_capable: true,
        })
    } else if str_eq(id, "flaaffy_white") {
        Some(ModelInfo {
            id: "flaaffy_white",
            name: "Nothing Ear (open)",
            base: ModelBase::B174,
            anc_capable: false,
        })
    } else {
        None
    }
}

/// The model id in the SKU table for `sku`, if any.
pub fn sku_to_model_id(sku: &str) -> (r: Option<&'static str>)
    ensures
        match r {
            Some(id) => spec_sku_to_model_id(sku@) == Some(id@),
            None => spec_sku_to_model_id(sku@) is None,
        },
{
    if str_eq(sku, "01") {
        Some("ear_1_white")
    } else if str_eq(sku, "02") {
        Some("ear_1_black")
    } else if str_eq(sku, "03") {
        Some("ear_1_white")
    } else if str_eq(sku, "04") {
        Some("ear_1_black")
    } else if str_eq(sku, "06") {
        Some("ear_1_black")
    } else if str_eq(sku, "07") {
        Some("ear_1_white")
    } else if str_eq(sku, "08") {
        Some("ear_1_black")
    } else if str_eq(sku, "10") {
        Some("ear_1_black")
    } else if str_eq(sku, "14") {
        Some("ear_stick")
    } else if str_eq(sku, "15") {
        Some("ear_stick")
    } else if str_eq(sku, "16") {
        Some("ear_stick")
    } else if str_eq(sku, "17") {
        Some("ear_2_white")
    } else if str_eq(sku, "18") {
        Some("ear_2_white")
    } else if str_eq(sku, "19") {
        Some("ear_2_white")
    } else if str_eq(sku, "27") {
        Some("ear_2_black")
    } else if str_eq(sku, "28") {
        Some("ear_2_black")
    } else if str_eq(sku, "29") {
        Some("ear_2_black")
    } else if str_eq(sku, "30") {
        Some("corsola_black")
    } else if str_eq(sku, "31") {
        Some("corsola_black")
    } else if str_eq(sku, "32") {
        Some("corsola_white")
    } else if str_eq(sku, "33") {
        Some("corsola_white")
    } else if str_eq(sku, "34") {
        Some("corsola_orange")
    } else if str_eq(sku, "35") {
        Some("corsola_orange")
    } else if str_eq(sku, "48") {
        Some("crobat_orange")
    } else if str_eq(sku, "49") {
        Some("crobat_white")
    } else if str_eq(sku, "50") {
        Some("crobat_black")
    } else if str_eq(sku, "51") {
        Some("crobat_black")
    } else if str_eq(sku, "52") {
        Some("crobat_white")
    } else if str_eq(sku, "53") {
        Some("crobat_orange")
    } else if str_eq(sku, "54") {
        Some("donphan_black")
    } else if str_eq(sku, "55") {
        Some("donphan_black")
    } else if str_eq(sku, "56") {
        Some("donphan_white")
    } else if str_eq(sku, "57") {
        Some("donphan_white")
    } else if str_eq(sku, "58") {
        Some("donphan_orange")
    } else if str_eq(sku, "59") {
        Some("donphan_orange")
    } else if str_eq(sku, "61") {
        Some("entei_black")
    } else if str_eq(sku, "62") {
        Some("entei_white")
    } else if str_eq(sku, "63") {
        Some("cleffa_black")
    } else if str_eq(sku, "64") {
        Some("cleffa_white")
    } else if str_eq(sku, "65") {
        Some("cleffa_yellow")
    } else if str_eq(sku, "66") {
        Some("cleffa_black")
    } else if str_eq(sku, "67") {
        Some("cleffa_white")
    } else if str_eq(sku, "68") {
        Some("cleffa_yellow")
    } else if str_eq(sku, "69") {
        Some("entei_black")
    } else if str_eq(sku, "70") {
        Some("entei_white")
    } else if str_eq(sku, "71") {
        Some("cleffa_black")
    } else if str_eq(sku, "72") {
        Some("cleffa_white")
    } else if str_eq(sku, "73") {
        Some("cleffa_yellow")
    } else if str_eq(sku, "74") {
        Some("entei_black")
    } else if str_eq(sku, "75") {
        Some("entei_white")
    } else if str_eq(sku, "76") {
        Some("espeon_black")
    } else if str_eq(sku, "77") {
        Some("espeon_white")
    } else if str_eq(sku, "78") {
        Some("espeon_orange")
    } else if str_eq(sku, "79") {
        Some("espeon_blue")
    } else if str_eq(sku, "80") {
        Some("espeon_blue")
    } else if str_eq(sku, "81") {
        Some("espeon_orange")
    } else if str_eq(sku, "82") {
        Some("espeon_white")
    } else if str_eq(sku, "83") {
        Some("espeon_black")
    } else if str_eq(sku, "11200005") {
        Some("flaaffy_white")
    } else {
        None
    }
}

/// Looks a model up by its SKU.
pub fn model_from_sku(sku: &str) -> (r: Option<ModelInfo>)
    ensures
        match r {
            Some(info) => spec_model_from_sku(sku@) == Some(info@),
            None => spec_model_from_sku(sku@) is None,
        },
{
    match sku_to_model_id(sku) {
        Some(id) => model_from_id(id),
        None => None,
    }
}

/// The SKU derived from a device serial number:
/// the debug fixture serial maps to "01"; serials shorter than 6
/// characters fail; "MA"-prefixed serials map the year digits at 6..8
/// ("22"/"23" to "14", "24" to "11200005", anything else fails, as does a
/// serial too short to hold them); "SH"- and "13"-prefixed serials yield
/// the characters at 4..6; everything else fails.
pub open spec fn spec_derive_sku(serial: Seq<char>) -> Option<Seq<char>> {
    if serial == "12345678901234567"@ {
        Some("01"@)
    } else if serial.len() < 6 {
        None
    } else if serial[0] == 'M' && serial[1] == 'A' {
        if serial.len() < 8 {
            None
        } else if serial[6] == '2' && (serial[7] == '2' || serial[7] == '3') {
            Some("14"@)
        } else if serial[6] == '2' && serial[7] == '4' {
            Some("11200005"@)
        } else {
            None
        }
    } else if (serial[0] == 'S' && serial[1] == 'H') || (serial[0] == '1' && serial[1] == '3') {
        Some(serial.subrange(4, 6))
    } else {
        None
    }
}

/// Derives a SKU from a serial number.
pub fn derive_sku_from_serial(serial: &str) -> (r: Option<String>)
    ensures
        match r {
            Some(sku) => spec_derive_sku(serial@) == Some(sku@),
            None => spec_derive_sku(serial@) is None,
        },
{
    if str_eq(serial, "12345678901234567") {
        return Some(String::from_str("01"));
    }
    let len = serial.unicode_len();
    if len < 6 {
        return None;
    }
    let c0 = serial.get_char(0);
    let c1 = serial.get_char(1);
    if c0 == 'M' && c1 == 'A' {
        if len < 8 {
            return None;
        }
        let y0 = serial.get_char(6);
        let y1 = serial.get_char(7);
        if y0 == '2' && (y1 == '2' || y1 == '3') {
            return Some(String::from_str("14"));
        }
        if y0 == '2' && y1 == '4' {
            return Some(String::from_str("11200005"));
        }
        return None;
    }
    if (c0 == 'S' && c1 == 'H') || (c0 == '1' && c1 == '3') {
        let sku = serial.substring_char(4, 6);
        return Some(String::from_str(sku));
    }
    None
}

} // verus!
