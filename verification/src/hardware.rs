//! Hardware profiles: what a machine's `lshw` report says of its processor,
//! memory and disks.

use vstd::prelude::*;
use vstd::string::*;
use crate::json::{JsonValue, JsonView};
use crate::json_source;
use crate::json_source::read_json;
use crate::lshw::{
    cores_of, find_nodes_by_class, find_system_memory_size, product_of, sum_cores, sum_sizes,
};
use crate::text::signed_decimal_text;

verus! {

/// The bytes of a gigabyte.
pub const GIGABYTE: i64 = 1073741824;

/// Hardware profile information extracted from lshw.
#[derive(Debug, Clone)]
pub struct HardwareProfile {
    pub cpu_model: Option<String>,
    pub cpu_cores: Option<i32>,
    pub ram_gb: Option<i32>,
    pub disk_gb: Option<i32>,
    pub full_json: String,
}

/// What a hardware profile says.
pub struct ProfileView {
    pub cpu_model: Option<Seq<char>>,
    pub cpu_cores: Option<i32>,
    pub ram_gb: Option<i32>,
    pub disk_gb: Option<i32>,
    pub full_json: Seq<char>,
}

/// The characters of a text that may be missing.
pub open spec fn optional_text(text: Option<String>) -> Option<Seq<char>> {
    match text {
        Some(s) => Some(s@),
        None => None,
    }
}

impl View for HardwareProfile {
    type V = ProfileView;

    open spec fn view(&self) -> ProfileView {
        ProfileView {
            cpu_model: optional_text(self.cpu_model),
            cpu_cores: self.cpu_cores,
            ram_gb: self.ram_gb,
            disk_gb: self.disk_gb,
            full_json: self.full_json@,
        }
    }
}

/// An integer brought into the range of 32-bit signed integers by adding or
/// taking away multiples of 2^32.
pub open spec fn wrapped_i32(n: int) -> i32 {
    ((n + 0x8000_0000) % 0x1_0000_0000 - 0x8000_0000) as i32
}

/// Whole gigabytes, as a 32-bit integer that wraps around; nothing if there
/// is no byte.
pub open spec fn gigabytes(bytes: int) -> Option<i32> {
    if bytes > 0 {
        Some(wrapped_i32(bytes / GIGABYTE as int))
    } else {
        None
    }
}

/// The product name of the first node.
pub open spec fn first_product(nodes: Seq<JsonView>) -> Option<Seq<char>> {
    if nodes.len() > 0 {
        crate::lshw::product(nodes[0])
    } else {
        None
    }
}

/// The profile of a machine as a whole: the first processor's name, the cores
/// of all processors, the memory that the machine reports as a whole, and all
/// disks.
pub open spec fn machine_profile(document: JsonView, text: Seq<char>) -> ProfileView {
    let processors = crate::lshw::nodes_by_class(document, "processor"@);
    let memories = crate::lshw::nodes_by_class(document, "memory"@);
    let disks = crate::lshw::nodes_by_class(document, "disk"@);
    let cores = crate::lshw::total_cores(processors);
    ProfileView {
        cpu_model: first_product(processors),
        cpu_cores: if cores > 0 {
            Some(cores as i32)
        } else {
            None
        },
        ram_gb: gigabytes(crate::lshw::system_memory_size(memories)),
        disk_gb: gigabytes(crate::lshw::total_size(disks)),
        full_json: text,
    }
}

/// Whether the totals of a machine's profile stay within their types.
pub open spec fn machine_totals_fit(document: JsonView) -> bool {
    &&& crate::lshw::cores_fit(crate::lshw::nodes_by_class(document, "processor"@))
    &&& crate::lshw::sizes_fit(crate::lshw::nodes_by_class(document, "disk"@))
}

/// The profile of a machine by its parts: the name and the cores of the first
/// processor, every memory node, and all disks.
pub open spec fn component_profile(document: JsonView, text: Seq<char>) -> ProfileView {
    let processors = crate::lshw::nodes_by_class(document, "processor"@);
    let memories = crate::lshw::nodes_by_class(document, "memory"@);
    let disks = crate::lshw::nodes_by_class(document, "disk"@);
    ProfileView {
        cpu_model: first_product(processors),
        cpu_cores: if processors.len() > 0 {
            crate::lshw::cores(processors[0])
        } else {
            None
        },
        ram_gb: gigabytes(crate::lshw::total_size(memories)),
        disk_gb: gigabytes(crate::lshw::total_size(disks)),
        full_json: text,
    }
}

/// Whether the totals of a profile by parts stay within their types.
pub open spec fn component_totals_fit(document: JsonView) -> bool {
    &&& crate::lshw::sizes_fit(crate::lshw::nodes_by_class(document, "memory"@))
    &&& crate::lshw::sizes_fit(crate::lshw::nodes_by_class(document, "disk"@))
}

fn to_gigabytes(bytes: i64) -> (r: Option<i32>)
    ensures
        r == gigabytes(bytes as int),
{
    if bytes > 0 {
        let whole: i64 = bytes / GIGABYTE;
        let low: i64 = whole % 0x1_0000_0000;
        if low < 0x8000_0000 {
            Some(low as i32)
        } else {
            Some((low - 0x1_0000_0000) as i32)
        }
    } else {
        None
    }
}

fn nodes_of<'a>(document: &'a JsonValue, class: &str) -> (r: Vec<&'a JsonValue>)
    ensures
        crate::lshw::views(r@) == crate::lshw::nodes_by_class(document@, class@),
{
    let mut nodes: Vec<&'a JsonValue> = Vec::new();
    find_nodes_by_class(document, class, &mut nodes);
    assert(crate::lshw::views(nodes@) =~= crate::lshw::nodes_by_class(document@, class@));
    nodes
}

fn first_product_of(nodes: &Vec<&JsonValue>) -> (r: Option<String>)
    ensures
        optional_text(r) == first_product(crate::lshw::views(nodes@)),
{
    if nodes.len() > 0 {
        product_of(nodes[0])
    } else {
        None
    }
}

impl HardwareProfile {
    /// Draws the profile of a machine as a whole from its report, unless a
    /// running total leaves its type.
    pub fn checked_from_lshw_document(document: &JsonValue, json_str: &str) -> (r: Option<Self>)
        ensures
            match r {
                Some(profile) => machine_totals_fit(document@) && profile@ == machine_profile(
                    document@,
                    json_str@,
                ),
                None => !machine_totals_fit(document@),
            },
    {
        let processors = nodes_of(document, "processor");
        let memories = nodes_of(document, "memory");
        let disks = nodes_of(document, "disk");
        match (sum_cores(&processors), sum_sizes(&disks)) {
            (Some(cores), Some(disk_bytes)) => Some(
                HardwareProfile {
                    cpu_model: first_product_of(&processors),
                    cpu_cores: if cores > 0 {
                        Some(cores)
                    } else {
                        None
                    },
                    ram_gb: to_gigabytes(find_system_memory_size(&memories)),
                    disk_gb: to_gigabytes(disk_bytes),
                    full_json: json_str.to_owned(),
                },
            ),
            _ => None,
        }
    }

    /// Draws the profile of a machine by its parts from its report, unless a
    /// running total leaves its type.
    pub fn checked_from_lshw_components(document: &JsonValue, json_str: &str) -> (r: Option<Self>)
        ensures
            match r {
                Some(profile) => component_totals_fit(document@) && profile@ == component_profile(
                    document@,
                    json_str@,
                ),
                None => !component_totals_fit(document@),
            },
    {
        let processors = nodes_of(document, "processor");
        let memories = nodes_of(document, "memory");
        let disks = nodes_of(document, "disk");
        match (sum_sizes(&memories), sum_sizes(&disks)) {
            (Some(memory_bytes), Some(disk_bytes)) => Some(
                HardwareProfile {
                    cpu_model: first_product_of(&processors),
                    cpu_cores: if processors.len() > 0 {
                        cores_of(processors[0])
                    } else {
                        None
                    },
                    ram_gb: to_gigabytes(memory_bytes),
                    disk_gb: to_gigabytes(disk_bytes),
                    full_json: json_str.to_owned(),
                },
            ),
            _ => None,
        }
    }
}

/// Why no profile could be drawn from a report.
#[derive(Debug)]
pub struct ProfileError {
    /// What went wrong, in words.
    pub message: String,
}

/// The message on a report that is no JSON document.
pub open spec fn parse_failure(cause: Seq<char>) -> Seq<char> {
    "Failed to parse lshw JSON: "@ + cause
}

/// Whether `outcome` is what becomes of a report that reads as `document`:
/// the profile if there is a document, else the reason why not.
pub open spec fn profile_outcome(
    document: Result<JsonView, Seq<char>>,
    profile: ProfileView,
    outcome: Result<HardwareProfile, ProfileError>,
) -> bool {
    match document {
        Ok(_) => outcome matches Ok(drawn) && drawn@ == profile,
        Err(cause) => outcome matches Err(error) && error.message@ == parse_failure(cause),
    }
}

fn unreadable(cause: String) -> (r: ProfileError)
    ensures
        r.message@ == parse_failure(cause@),
{
    ProfileError { message: "Failed to parse lshw JSON: ".to_owned().concat(cause.as_str()) }
}

impl HardwareProfile {
    /// Parse lshw JSON output to extract hardware information: the profile of
    /// the machine as a whole.
    pub fn from_lshw_json(json_str: &str) -> (r: Result<Self, ProfileError>)
        requires
            json_source::json_document(json_str@) matches Ok(document)
                ==> machine_totals_fit(document),
        ensures
            profile_outcome(
                json_source::json_document(json_str@),
                machine_profile(json_source::json_document(json_str@)->Ok_0, json_str@),
                r,
            ),
    {
        match read_json(json_str) {
            Ok(document) => Ok(
                HardwareProfile::checked_from_lshw_document(&document, json_str).unwrap(),
            ),
            Err(cause) => Err(unreadable(cause)),
        }
    }

    /// Like [`HardwareProfile::from_lshw_json`], for any text: nothing comes
    /// back where a running total would leave its type.
    pub fn checked_from_lshw_json(json_str: &str) -> (r: Option<Result<Self, ProfileError>>)
        ensures
            match r {
                Some(outcome) => {
                    &&& json_source::json_document(json_str@) matches Ok(document)
                        ==> machine_totals_fit(document)
                    &&& profile_outcome(
                        json_source::json_document(json_str@),
                        machine_profile(json_source::json_document(json_str@)->Ok_0, json_str@),
                        outcome,
                    )
                },
                None => json_source::json_document(json_str@) matches Ok(document)
                    && !machine_totals_fit(document),
            },
    {
        if let Ok(document) = read_json(json_str) {
            if HardwareProfile::checked_from_lshw_document(&document, json_str).is_none() {
                return None;
            }
        }
        Some(HardwareProfile::from_lshw_json(json_str))
    }

    /// Parse lshw output to extract hardware information: the profile of the
    /// machine by its parts.
    pub fn parse_lshw_output(json_str: &str) -> (r: Result<Self, ProfileError>)
        requires
            json_source::json_document(json_str@) matches Ok(document)
                ==> component_totals_fit(document),
        ensures
            profile_outcome(
                json_source::json_document(json_str@),
                component_profile(json_source::json_document(json_str@)->Ok_0, json_str@),
                r,
            ),
    {
        match read_json(json_str) {
            Ok(document) => Ok(
                HardwareProfile::checked_from_lshw_components(&document, json_str).unwrap(),
            ),
            Err(cause) => Err(unreadable(cause)),
        }
    }

    /// Like [`HardwareProfile::parse_lshw_output`], for any text: nothing comes
    /// back where a running total would leave its type.
    pub fn checked_parse_lshw_output(json_str: &str) -> (r: Option<Result<Self, ProfileError>>)
        ensures
            match r {
                Some(outcome) => {
                    &&& json_source::json_document(json_str@) matches Ok(document)
                        ==> component_totals_fit(document)
                    &&& profile_outcome(
                        json_source::json_document(json_str@),
                        component_profile(json_source::json_document(json_str@)->Ok_0, json_str@),
                        outcome,
                    )
                },
                None => json_source::json_document(json_str@) matches Ok(document)
                    && !component_totals_fit(document),
            },
    {
        if let Ok(document) = read_json(json_str) {
            if HardwareProfile::checked_from_lshw_components(&document, json_str).is_none() {
                return None;
            }
        }
        Some(HardwareProfile::parse_lshw_output(json_str))
    }

    /// The processor in a few words.
    pub fn cpu_info(&self) -> (r: String)
        ensures
            r@ == cpu_words(self@),
    {
        let mut text = match &self.cpu_model {
            Some(model) => model.clone(),
            None => "Unknown CPU".to_owned(),
        };
        text.append(" (");
        text.append(signed_decimal_text(self.cpu_cores.unwrap_or(0)).as_str());
        text.append(" cores)");
        text
    }

    /// Memory and disks in a few words.
    pub fn mem_info(&self) -> (r: String)
        ensures
            r@ == memory_words(self@),
    {
        let mut text = signed_decimal_text(self.ram_gb.unwrap_or(0));
        text.append("GB RAM, ");
        text.append(signed_decimal_text(self.disk_gb.unwrap_or(0)).as_str());
        text.append("GB Disk");
        text
    }
}

/// The processor of a profile in a few words: its model and its cores.
pub open spec fn cpu_words(profile: ProfileView) -> Seq<char> {
    let model = match profile.cpu_model {
        Some(name) => name,
        None => "Unknown CPU"@,
    };
    model + " ("@ + crate::text::signed_decimal(profile.cpu_cores.unwrap_or(0) as int) + " cores)"@
}

/// The memory and the disks of a profile in a few words.
pub open spec fn memory_words(profile: ProfileView) -> Seq<char> {
    crate::text::signed_decimal(profile.ram_gb.unwrap_or(0) as int) + "GB RAM, "@ + crate::text::signed_decimal(
        profile.disk_gb.unwrap_or(0) as int,
    ) + "GB Disk"@
}

/// Gigabytes are rounded down; up to two exabytes they do not wrap around.
pub proof fn law_gigabytes_round_down(bytes: int)
    requires
        0 < bytes < 0x8000_0000 * GIGABYTE,
    ensures
        gigabytes(bytes) matches Some(whole) && whole * GIGABYTE <= bytes < (whole + 1) * GIGABYTE,
{
}

/// Whichever rules a profile is drawn by, the processor's name, the disks and
/// the report are the same.
pub proof fn law_rules_agree(document: JsonView, text: Seq<char>)
    ensures
        machine_profile(document, text).cpu_model == component_profile(document, text).cpu_model,
        machine_profile(document, text).disk_gb == component_profile(document, text).disk_gb,
        machine_profile(document, text).full_json == text,
        component_profile(document, text).full_json == text,
{
}

/// A machine that has a core count has a core.
pub proof fn law_core_count_is_positive(document: JsonView, text: Seq<char>)
    requires
        machine_totals_fit(document),
    ensures
        machine_profile(document, text).cpu_cores matches Some(count) ==> count > 0 && count
            == crate::lshw::total_cores(crate::lshw::nodes_by_class(document, "processor"@)),
{
    let processors = crate::lshw::nodes_by_class(document, "processor"@);
    assert(processors.take(processors.len() as int) == processors);
}

/// Two reports in which the nodes for the memory as a whole give the same sizes
/// give the same memory, whatever banks they list beside or below those nodes.
pub proof fn law_banks_do_not_change_memory(
    a: JsonView,
    b: JsonView,
    a_text: Seq<char>,
    b_text: Seq<char>,
)
    requires
        crate::lshw::system_sizes(crate::lshw::nodes_by_class(a, "memory"@))
            == crate::lshw::system_sizes(crate::lshw::nodes_by_class(b, "memory"@)),
    ensures
        machine_profile(a, a_text).ram_gb == machine_profile(b, b_text).ram_gb,
{
    crate::lshw::law_only_system_memory_counts(crate::lshw::nodes_by_class(a, "memory"@));
    crate::lshw::law_only_system_memory_counts(crate::lshw::nodes_by_class(b, "memory"@));
}

/// Whether a node is a bank of the memory: a memory node that does not stand
/// for the memory as a whole and has nothing below it.
pub open spec fn is_bank(node: JsonView) -> bool {
    &&& crate::lshw::has_class(node, "memory"@)
    &&& !crate::lshw::is_system_memory(node)
    &&& crate::lshw::children(node).len() == 0
}

/// A bank that is put into a report, at whatever place, changes none of the
/// figures of the machine as a whole, nor whether its totals fit; of the
/// figures by parts it can change the memory alone.
pub proof fn law_added_bank_changes_no_figure(
    document: JsonView,
    path: Seq<int>,
    at: int,
    bank: JsonView,
    text: Seq<char>,
)
    requires
        crate::lshw::leads_to_place(document, path, at),
        is_bank(bank),
    ensures
        ({
            let grown = crate::lshw::with_node(document, path, at, bank);
            &&& machine_totals_fit(grown) == machine_totals_fit(document)
            &&& machine_profile(grown, text) == machine_profile(document, text)
            &&& component_profile(grown, text) == (ProfileView {
                ram_gb: component_profile(grown, text).ram_gb,
                ..component_profile(document, text)
            })
        }),
{
    let grown = crate::lshw::with_node(document, path, at, bank);
    reveal_strlit("memory");
    reveal_strlit("processor");
    reveal_strlit("disk");
    assert("memory"@.len() == 6 && "processor"@.len() == 9 && "disk"@.len() == 4);
    let nothing = Seq::<JsonView>::empty();
    assert(crate::lshw::nodes_by_class(bank, "processor"@) == nothing);
    assert(crate::lshw::nodes_by_class(bank, "disk"@) == nothing);
    assert(crate::lshw::nodes_by_class(bank, "memory"@) == seq![bank]);
    assert(seq![bank].drop_last() == nothing);
    assert(crate::lshw::system_sizes(seq![bank].drop_last()).len() == 0);
    assert(crate::lshw::system_sizes(seq![bank]).len() == 0);

    crate::lshw::law_added_node_adds_only_its_own(document, path, at, bank, "processor"@);
    crate::lshw::law_added_node_adds_only_its_own(document, path, at, bank, "memory"@);
    crate::lshw::law_added_node_adds_only_its_own(document, path, at, bank, "disk"@);

    let processors = crate::lshw::nodes_by_class(document, "processor"@);
    let grown_processors = crate::lshw::nodes_by_class(grown, "processor"@);
    crate::lshw::law_totals_rest_on_figures(grown_processors, processors);
    crate::lshw::law_fitting_rests_on_figures(grown_processors, processors);
    assert(crate::lshw::all_figures(processors).len() == processors.len());
    assert(crate::lshw::all_figures(grown_processors).len() == grown_processors.len());
    if processors.len() > 0 {
        assert(crate::lshw::all_figures(processors)[0] == crate::lshw::figures(processors[0]));
        assert(crate::lshw::all_figures(grown_processors)[0] == crate::lshw::figures(
            grown_processors[0],
        ));
    }
    let disks = crate::lshw::nodes_by_class(document, "disk"@);
    let grown_disks = crate::lshw::nodes_by_class(grown, "disk"@);
    crate::lshw::law_totals_rest_on_figures(grown_disks, disks);
    crate::lshw::law_fitting_rests_on_figures(grown_disks, disks);
    law_banks_do_not_change_memory(grown, document, text, text);
}

/// On a machine with one processor that has a core, both sets of rules give the
/// same cores; with one memory node, which stands for the memory as a whole,
/// they give the same memory.
pub proof fn law_rules_agree_on_single_parts(document: JsonView, text: Seq<char>)
    ensures
        ({
            let processors = crate::lshw::nodes_by_class(document, "processor"@);
            processors.len() == 1 && crate::lshw::cores(processors[0]) is Some
                && crate::lshw::cores(processors[0])->0 > 0 ==> machine_profile(
                document,
                text,
            ).cpu_cores == component_profile(document, text).cpu_cores
        }),
        ({
            let memories = crate::lshw::nodes_by_class(document, "memory"@);
            memories.len() == 1 && crate::lshw::is_system_memory(memories[0]) ==> machine_profile(
                document,
                text,
            ).ram_gb == component_profile(document, text).ram_gb
        }),
{
    reveal_with_fuel(crate::lshw::total_cores, 2);
    reveal_with_fuel(crate::lshw::total_size, 2);
    reveal_with_fuel(crate::lshw::system_memory_size, 2);
}

/// A profile shows the figures that it holds.
pub proof fn law_profiles_show_what_they_hold(profile: HardwareProfile)
    ensures
        profile@.cpu_cores == profile.cpu_cores,
        profile@.ram_gb == profile.ram_gb,
        profile@.disk_gb == profile.disk_gb,
        profile@.full_json == profile.full_json@,
        profile.cpu_model is None <==> profile@.cpu_model is None,
        profile.cpu_model matches Some(model) ==> profile@.cpu_model == Some(model@),
{
}

/// Whether a figure gives a number of bytes in gigabytes: nothing if there is
/// no byte, else the bytes divided by 2^30 and rounded down, but for multiples
/// of 2^32.
pub open spec fn gives_gigabytes(figure: Option<i32>, bytes: int) -> bool {
    match figure {
        None => bytes <= 0,
        Some(whole) => bytes > 0 && (bytes / 1073741824 - whole) % 0x1_0000_0000 == 0,
    }
}

proof fn lemma_gigabytes(bytes: int)
    ensures
        gives_gigabytes(gigabytes(bytes), bytes),
{
    if bytes > 0 {
        let n = bytes / 1073741824;
        let q = (n + 0x8000_0000) / 0x1_0000_0000;
        let whole = (n + 0x8000_0000) % 0x1_0000_0000 - 0x8000_0000;
        assert(n - whole == q * 0x1_0000_0000);
        assert(gigabytes(bytes) == Some(whole as i32));
        assert((q * 0x1_0000_0000) % 0x1_0000_0000 == 0);
    }
}

proof fn lemma_first_product(nodes: Seq<JsonView>, name: Seq<char>)
    ensures
        first_product(nodes) == Some(name) <==> nodes.len() > 0 && crate::json::has_member(
            nodes[0],
            "product"@,
            JsonView::Text(name),
        ),
{
    if nodes.len() > 0 {
        crate::json::law_lookup_gives_the_member(nodes[0], "product"@, JsonView::Text(name));
    }
}

/// The profile of a machine as a whole has the product name of the first
/// processor, the cores of all processors together, the memory that the machine
/// reports as a whole and the sizes of all disks together, and it keeps the
/// report. There is none exactly if a total from the front leaves its type.
pub proof fn law_machine_profile_is_of_the_whole(
    document: JsonValue,
    text: &str,
    name: Seq<char>,
    r: Option<HardwareProfile>,
)
    requires
        call_ensures(HardwareProfile::checked_from_lshw_document, (&document, text), r),
    ensures
        ({
            let processors = crate::lshw::nodes_by_class(document@, "processor"@);
            let memories = crate::lshw::nodes_by_class(document@, "memory"@);
            let disks = crate::lshw::nodes_by_class(document@, "disk"@);
            &&& r matches Some(profile) ==> {
                &&& (profile.cpu_model matches Some(model) && model@ == name) <==> processors.len()
                    > 0 && crate::json::has_member(
                    processors[0],
                    "product"@,
                    JsonView::Text(name),
                )
                &&& profile.cpu_cores is Some <==> crate::lshw::total_cores(processors) > 0
                &&& profile.cpu_cores matches Some(count) ==> count == crate::lshw::total_cores(
                    processors,
                )
                &&& gives_gigabytes(profile.ram_gb, crate::lshw::system_memory_size(memories))
                &&& gives_gigabytes(profile.disk_gb, crate::lshw::total_size(disks))
                &&& profile.full_json@ == text@
                &&& forall|k: int|
                    0 <= k <= processors.len() ==> -0x8000_0000
                        <= #[trigger] crate::lshw::total_cores(processors.take(k))
                        <= 0x7fff_ffff
                &&& forall|k: int|
                    0 <= k <= disks.len() ==> -0x8000_0000_0000_0000
                        <= #[trigger] crate::lshw::total_size(disks.take(k))
                        <= 0x7fff_ffff_ffff_ffff
            }
            &&& r is None ==> {
                ||| exists|k: int|
                    0 <= k <= processors.len() && !(-0x8000_0000
                        <= #[trigger] crate::lshw::total_cores(processors.take(k))
                        <= 0x7fff_ffff)
                ||| exists|k: int|
                    0 <= k <= disks.len() && !(-0x8000_0000_0000_0000
                        <= #[trigger] crate::lshw::total_size(disks.take(k))
                        <= 0x7fff_ffff_ffff_ffff)
            }
        }),
{
    let processors = crate::lshw::nodes_by_class(document@, "processor"@);
    let memories = crate::lshw::nodes_by_class(document@, "memory"@);
    let disks = crate::lshw::nodes_by_class(document@, "disk"@);
    assert(processors.take(processors.len() as int) == processors);
    assert(disks.take(disks.len() as int) == disks);
    lemma_first_product(processors, name);
    lemma_gigabytes(crate::lshw::system_memory_size(memories));
    lemma_gigabytes(crate::lshw::total_size(disks));
}

/// The profile of a machine by its parts has the product name and the cores of
/// the first processor, the sizes of all memory nodes together and those of all
/// disks together, and it keeps the report. There is none exactly if a total
/// from the front leaves its type.
pub proof fn law_component_profile_is_of_the_parts(
    document: JsonValue,
    text: &str,
    name: Seq<char>,
    r: Option<HardwareProfile>,
)
    requires
        call_ensures(HardwareProfile::checked_from_lshw_components, (&document, text), r),
    ensures
        ({
            let processors = crate::lshw::nodes_by_class(document@, "processor"@);
            let memories = crate::lshw::nodes_by_class(document@, "memory"@);
            let disks = crate::lshw::nodes_by_class(document@, "disk"@);
            &&& r matches Some(profile) ==> {
                &&& (profile.cpu_model matches Some(model) && model@ == name) <==> processors.len()
                    > 0 && crate::json::has_member(
                    processors[0],
                    "product"@,
                    JsonView::Text(name),
                )
                &&& processors.len() == 0 ==> profile.cpu_cores is None
                &&& processors.len() > 0 ==> profile.cpu_cores == crate::lshw::cores(processors[0])
                &&& gives_gigabytes(profile.ram_gb, crate::lshw::total_size(memories))
                &&& gives_gigabytes(profile.disk_gb, crate::lshw::total_size(disks))
                &&& profile.full_json@ == text@
                &&& forall|k: int|
                    0 <= k <= memories.len() ==> -0x8000_0000_0000_0000
                        <= #[trigger] crate::lshw::total_size(memories.take(k))
                        <= 0x7fff_ffff_ffff_ffff
                &&& forall|k: int|
                    0 <= k <= disks.len() ==> -0x8000_0000_0000_0000
                        <= #[trigger] crate::lshw::total_size(disks.take(k))
                        <= 0x7fff_ffff_ffff_ffff
            }
            &&& r is None ==> {
                ||| exists|k: int|
                    0 <= k <= memories.len() && !(-0x8000_0000_0000_0000
                        <= #[trigger] crate::lshw::total_size(memories.take(k))
                        <= 0x7fff_ffff_ffff_ffff)
                ||| exists|k: int|
                    0 <= k <= disks.len() && !(-0x8000_0000_0000_0000
                        <= #[trigger] crate::lshw::total_size(disks.take(k))
                        <= 0x7fff_ffff_ffff_ffff)
            }
        }),
{
    let processors = crate::lshw::nodes_by_class(document@, "processor"@);
    let memories = crate::lshw::nodes_by_class(document@, "memory"@);
    let disks = crate::lshw::nodes_by_class(document@, "disk"@);
    lemma_first_product(processors, name);
    lemma_gigabytes(crate::lshw::total_size(memories));
    lemma_gigabytes(crate::lshw::total_size(disks));
}

/// What is drawn from the text of a report is what is drawn from the document
/// that the text writes, by either set of rules; a text that writes none gives
/// the reason, behind fixed words.
pub proof fn law_text_gives_the_documents_profile(
    text: &str,
    document: JsonValue,
    whole: Option<HardwareProfile>,
    whole_of_text: Option<Result<HardwareProfile, ProfileError>>,
    parts: Option<HardwareProfile>,
    parts_of_text: Option<Result<HardwareProfile, ProfileError>>,
)
    requires
        call_ensures(HardwareProfile::checked_from_lshw_document, (&document, text), whole),
        call_ensures(HardwareProfile::checked_from_lshw_json, (text,), whole_of_text),
        call_ensures(HardwareProfile::checked_from_lshw_components, (&document, text), parts),
        call_ensures(HardwareProfile::checked_parse_lshw_output, (text,), parts_of_text),
    ensures
        json_source::json_document(text@) == Ok::<JsonView, Seq<char>>(document@) ==> {
            &&& whole is None <==> whole_of_text is None
            &&& whole matches Some(profile) ==> whole_of_text matches Some(Ok(of_text))
                && of_text@ == profile@
            &&& parts is None <==> parts_of_text is None
            &&& parts matches Some(profile) ==> parts_of_text matches Some(Ok(of_text))
                && of_text@ == profile@
        },
        json_source::json_document(text@) matches Err(cause) ==> {
            &&& whole_of_text matches Some(Err(error)) && error.message@
                == "Failed to parse lshw JSON: "@ + cause
            &&& parts_of_text matches Some(Err(error)) && error.message@
                == "Failed to parse lshw JSON: "@ + cause
        },
{
}

/// Where totals fit, the functions that ask for that give what the others give.
pub proof fn law_unchecked_drawing_agrees(
    text: &str,
    whole: Result<HardwareProfile, ProfileError>,
    checked_whole: Option<Result<HardwareProfile, ProfileError>>,
    parts: Result<HardwareProfile, ProfileError>,
    checked_parts: Option<Result<HardwareProfile, ProfileError>>,
)
    requires
        call_ensures(HardwareProfile::from_lshw_json, (text,), whole),
        call_ensures(HardwareProfile::checked_from_lshw_json, (text,), checked_whole),
        call_ensures(HardwareProfile::parse_lshw_output, (text,), parts),
        call_ensures(HardwareProfile::checked_parse_lshw_output, (text,), checked_parts),
    ensures
        checked_whole matches Some(Ok(profile)) ==> whole matches Ok(same) && same@ == profile@,
        checked_whole matches Some(Err(error)) ==> whole matches Err(same) && same.message@
            == error.message@,
        checked_parts matches Some(Ok(profile)) ==> parts matches Ok(same) && same@ == profile@,
        checked_parts matches Some(Err(error)) ==> parts matches Err(same) && same.message@
            == error.message@,
{
}

/// The words on a processor are its model, or that it is unknown, and its cores
/// in decimal; those on memory and disks are both figures in decimal. A figure
/// that is not known counts as zero.
pub proof fn law_words_give_the_figures(
    profile: HardwareProfile,
    on_processor: String,
    on_memory: String,
)
    requires
        call_ensures(HardwareProfile::cpu_info, (&profile,), on_processor),
        call_ensures(HardwareProfile::mem_info, (&profile,), on_memory),
    ensures
        ({
            let model = match profile.cpu_model {
                Some(model) => model@,
                None => "Unknown CPU"@,
            };
            let cores: int = match profile.cpu_cores {
                Some(count) => count as int,
                None => 0,
            };
            let ram: int = match profile.ram_gb {
                Some(whole) => whole as int,
                None => 0,
            };
            let disk: int = match profile.disk_gb {
                Some(whole) => whole as int,
                None => 0,
            };
            &&& on_processor@ == model + " ("@ + crate::text::signed_decimal(cores) + " cores)"@
            &&& on_memory@ == crate::text::signed_decimal(ram) + "GB RAM, "@
                + crate::text::signed_decimal(disk) + "GB Disk"@
        }),
{
}

/// A processor that is put into a report, at whatever place, with nothing below
/// it, adds its cores to those of the machine as a whole; a disk adds its size;
/// and neither changes the total of the other.
pub proof fn law_added_part_adds_its_figure(
    document: JsonView,
    path: Seq<int>,
    at: int,
    part: JsonView,
    class: Seq<char>,
)
    requires
        crate::lshw::leads_to_place(document, path, at),
        crate::json::has_member(part, "class"@, JsonView::Text(class)),
        crate::lshw::children(part).len() == 0,
    ensures
        ({
            let grown = crate::lshw::with_node(document, path, at, part);
            let processors = crate::lshw::nodes_by_class(document, "processor"@);
            let grown_processors = crate::lshw::nodes_by_class(grown, "processor"@);
            let disks = crate::lshw::nodes_by_class(document, "disk"@);
            let grown_disks = crate::lshw::nodes_by_class(grown, "disk"@);
            let count = match crate::lshw::cores(part) {
                Some(n) => n as int,
                None => 0int,
            };
            let bytes = match crate::lshw::size(part) {
                Some(b) => b as int,
                None => 0int,
            };
            &&& crate::lshw::total_cores(grown_processors) - crate::lshw::total_cores(processors)
                == (if class == "processor"@ {
                count
            } else {
                0int
            })
            &&& crate::lshw::total_size(grown_disks) - crate::lshw::total_size(disks) == (if class
                == "disk"@ {
                bytes
            } else {
                0int
            })
        }),
{
    let nothing = Seq::<JsonView>::empty();
    crate::json::law_lookup_gives_the_member(part, "class"@, JsonView::Text(class));
    crate::lshw::law_added_node_adds_its_totals(document, path, at, part, "processor"@);
    crate::lshw::law_added_node_adds_its_totals(document, path, at, part, "disk"@);
    assert(seq![part].drop_last() == nothing);
    reveal_with_fuel(crate::lshw::total_size, 2);
    reveal_with_fuel(crate::lshw::total_cores, 2);
    assert(crate::lshw::nodes_by_class(part, "processor"@) == (if class == "processor"@ {
        seq![part]
    } else {
        nothing
    }));
    assert(crate::lshw::nodes_by_class(part, "disk"@) == (if class == "disk"@ {
        seq![part]
    } else {
        nothing
    }));
}

} // verus!
