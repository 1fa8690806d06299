//! The details of the releases in the metadata, as lines of text for the user: for each release,
//! whether it includes BMDA, the probes it was built for, the firmware variants of each probe and
//! where they download from, and the BMDA builds by operating system and architecture.
use vstd::prelude::*;

use crate::metadata::firmware_download::FirmwareDownloadView;
use crate::metadata::structs::{
    probe_name, target_arch_display, target_os_display, BMDAArch, BMDABinary, Firmware, Metadata, Probe, Release,
    TargetArch, TargetOS,
};
use crate::text::{decimal_digits, join_names, push_decimal, string_extend_str, strings_view};

verus! {

/// How a truth value is shown.
pub open spec fn bool_text(b: bool) -> Seq<char> {
    if b {
        "true"@
    } else {
        "false"@
    }
}

/// The lines for one firmware variant: its name, its file, and where it downloads from.
pub open spec fn variant_lines(name: Seq<char>, d: FirmwareDownloadView) -> Seq<Seq<char>> {
    seq![
        "  -> Firmware variant "@ + name,
        "    -> "@ + d.friendly_name + " will be downloaded as "@ + d.file_name,
        "    -> Variant will be downloaded from "@ + d.uri,
    ]
}

/// The lines for the first `k` variants.
pub open spec fn variants_lines(vs: Seq<(String, crate::metadata::structs::FirmwareDownload)>, k: int) -> Seq<
    Seq<char>,
>
    decreases k,
{
    if k <= 0 {
        seq![]
    } else {
        variants_lines(vs, k - 1) + variant_lines(vs[k - 1].0@, vs[k - 1].1@)
    }
}

/// The lines for a probe's firmware: how many variants it has, then each variant.
pub open spec fn probe_lines(p: Probe, f: Firmware) -> Seq<Seq<char>> {
    seq!["-> probe "@ + probe_name(p) + " has "@ + decimal_digits(f.variants@.len()) + " firmware variants"@]
        + variants_lines(f.variants@, f.variants@.len() as int)
}

/// The lines for the first `k` probes' firmware.
pub open spec fn firmware_lines(fs: Seq<(Probe, Firmware)>, k: int) -> Seq<Seq<char>>
    decreases k,
{
    if k <= 0 {
        seq![]
    } else {
        firmware_lines(fs, k - 1) + probe_lines(fs[k - 1].0, fs[k - 1].1)
    }
}

/// The lines for one BMDA build: its architecture, its executable, and where it downloads from.
pub open spec fn binary_lines(arch: TargetArch, b: BMDABinary) -> Seq<Seq<char>> {
    seq![
        "    -> BMDA binary for "@ + target_arch_display(arch),
        "    -> Name of executable in archive: "@ + b.file_name@,
        "    -> Archive will be downloaded from "@ + b.uri@,
    ]
}

/// The lines for the first `k` BMDA builds.
pub open spec fn binaries_lines(bs: Seq<(TargetArch, BMDABinary)>, k: int) -> Seq<Seq<char>>
    decreases k,
{
    if k <= 0 {
        seq![]
    } else {
        binaries_lines(bs, k - 1) + binary_lines(bs[k - 1].0, bs[k - 1].1)
    }
}

/// The lines for the BMDA builds of one operating system: how many architectures, then each.
pub open spec fn os_lines(os: TargetOS, a: BMDAArch) -> Seq<Seq<char>> {
    seq![
        "  -> "@ + target_os_display(os) + " release is for "@ + decimal_digits(a.binaries@.len())
            + " architectures"@,
    ] + binaries_lines(a.binaries@, a.binaries@.len() as int)
}

/// The lines for the first `k` operating systems' BMDA builds.
pub open spec fn oses_lines(xs: Seq<(TargetOS, BMDAArch)>, k: int) -> Seq<Seq<char>>
    decreases k,
{
    if k <= 0 {
        seq![]
    } else {
        oses_lines(xs, k - 1) + os_lines(xs[k - 1].0, xs[k - 1].1)
    }
}

/// The metadata names of the probes a release holds firmware for, in order.
pub open spec fn probe_names(fs: Seq<(Probe, Firmware)>) -> Seq<Seq<char>> {
    fs.map_values(|e: (Probe, Firmware)| probe_name(e.0))
}

/// The lines for one release.
pub open spec fn release_lines(name: Seq<char>, r: Release) -> Seq<Seq<char>> {
    seq![
        "Details of release "@ + name + ":"@,
        "-> Release includes BMDA builds? "@ + bool_text(r.includes_bmda),
        "-> Release done for probes: "@ + join_names(probe_names(r.firmware@)),
    ] + firmware_lines(r.firmware@, r.firmware@.len() as int) + match r.bmda {
        None => seq![],
        Some(b) => seq!["-> Release contains BMDA for "@ + decimal_digits(b@.len()) + " OSes"@] + oses_lines(
            b@,
            b@.len() as int,
        ),
    }
}

/// The lines for the first `k` releases.
pub open spec fn releases_lines(rs: Seq<(String, Release)>, k: int) -> Seq<Seq<char>>
    decreases k,
{
    if k <= 0 {
        seq![]
    } else {
        releases_lines(rs, k - 1) + release_lines(rs[k - 1].0@, rs[k - 1].1)
    }
}

/// Appends one line.
fn push_line(out: &mut Vec<String>, line: String)
    ensures
        strings_view(final(out)@) == strings_view(old(out)@).push(line@),
{
    let ghost line_view = line@;
    out.push(line);
    assert(strings_view(out@) =~= strings_view(old(out)@).push(line_view));
}

/// `prefix + value`, as a new string.
fn joined(prefix: &str, value: &str) -> (r: String)
    ensures
        r@ == prefix@ + value@,
{
    let mut r = prefix.to_owned();
    string_extend_str(&mut r, value);
    r
}

/// `prefix + (the decimal digits of n) + suffix`, as a new string.
fn counted(prefix: &str, n: usize, suffix: &str) -> (r: String)
    ensures
        r@ == prefix@ + decimal_digits(n as nat) + suffix@,
{
    let mut r = prefix.to_owned();
    push_decimal(&mut r, n);
    string_extend_str(&mut r, suffix);
    r
}

/// Appends the lines for one firmware variant.
fn push_variant_lines(out: &mut Vec<String>, name: &str, d: &crate::metadata::structs::FirmwareDownload)
    ensures
        strings_view(final(out)@) == strings_view(old(out)@) + variant_lines(name@, d@),
{
    push_line(out, joined("  -> Firmware variant ", name));
    let mut l = joined("    -> ", d.friendly_name());
    string_extend_str(&mut l, " will be downloaded as ");
    string_extend_str(&mut l, d.file_name());
    push_line(out, l);
    push_line(out, joined("    -> Variant will be downloaded from ", d.uri()));
    assert(strings_view(out@) =~= strings_view(old(out)@) + variant_lines(name@, d@));
}

/// Appends the lines for a probe's firmware.
fn push_probe_lines(out: &mut Vec<String>, p: Probe, f: &Firmware)
    ensures
        strings_view(final(out)@) == strings_view(old(out)@) + probe_lines(p, *f),
{
    let name = p.to_string();
    let mut head = joined("-> probe ", name.as_str());
    string_extend_str(&mut head, " has ");
    push_decimal(&mut head, f.variants.len());
    string_extend_str(&mut head, " firmware variants");
    push_line(out, head);
    let ghost start = strings_view(out@);
    let ghost vs = f.variants@;
    let mut k: usize = 0;
    while k < f.variants.len()
        invariant
            k <= vs.len(),
            vs == f.variants@,
            strings_view(out@) == start + variants_lines(vs, k as int),
        decreases vs.len() - k,
    {
        let entry = &f.variants[k];
        push_variant_lines(out, entry.0.as_str(), &entry.1);
        assert(strings_view(out@) =~= start + variants_lines(vs, k + 1));
        k = k + 1;
    }
    assert(strings_view(out@) =~= strings_view(old(out)@) + probe_lines(p, *f));
}

/// Appends the lines for one BMDA build.
fn push_binary_lines(out: &mut Vec<String>, arch: TargetArch, b: &BMDABinary)
    ensures
        strings_view(final(out)@) == strings_view(old(out)@) + binary_lines(arch, *b),
{
    let arch_name = arch.to_string();
    push_line(out, joined("    -> BMDA binary for ", arch_name.as_str()));
    push_line(out, joined("    -> Name of executable in archive: ", b.file_name.as_str()));
    push_line(out, joined("    -> Archive will be downloaded from ", b.uri.as_str()));
    assert(strings_view(out@) =~= strings_view(old(out)@) + binary_lines(arch, *b));
}

/// Appends the lines for the BMDA builds of one operating system.
fn push_os_lines(out: &mut Vec<String>, os: TargetOS, a: &BMDAArch)
    ensures
        strings_view(final(out)@) == strings_view(old(out)@) + os_lines(os, *a),
{
    let os_name = os.to_string();
    let mut head = joined("  -> ", os_name.as_str());
    string_extend_str(&mut head, " release is for ");
    push_decimal(&mut head, a.binaries.len());
    string_extend_str(&mut head, " architectures");
    push_line(out, head);
    let ghost start = strings_view(out@);
    let ghost bs = a.binaries@;
    let mut k: usize = 0;
    while k < a.binaries.len()
        invariant
            k <= bs.len(),
            bs == a.binaries@,
            strings_view(out@) == start + binaries_lines(bs, k as int),
        decreases bs.len() - k,
    {
        let entry = &a.binaries[k];
        push_binary_lines(out, entry.0, &entry.1);
        assert(strings_view(out@) =~= start + binaries_lines(bs, k + 1));
        k = k + 1;
    }
    assert(strings_view(out@) =~= strings_view(old(out)@) + os_lines(os, *a));
}

/// The metadata names of the probes a release holds firmware for, joined with `", "`.
fn probe_list(fs: &[(Probe, Firmware)]) -> (r: String)
    ensures
        r@ == join_names(probe_names(fs@)),
{
    let ghost names = probe_names(fs@);
    let mut r = String::new();
    let mut k: usize = 0;
    while k < fs.len()
        invariant
            k <= fs@.len(),
            names == probe_names(fs@),
            r@ == join_names(names.subrange(0, k as int)),
        decreases fs@.len() - k,
    {
        if k > 0 {
            string_extend_str(&mut r, ", ");
        }
        let name = fs[k].0.to_string();
        string_extend_str(&mut r, name.as_str());
        proof {
            let after = names.subrange(0, k + 1);
            assert(after.drop_last() =~= names.subrange(0, k as int));
            assert(after.last() == probe_name(fs@[k as int].0));
            if k == 0 {
                assert(r@ =~= join_names(after));
            } else {
                assert(r@ =~= join_names(after.drop_last()) + ", "@ + after.last());
            }
        }
        k = k + 1;
    }
    assert(names.subrange(0, fs@.len() as int) =~= names);
    r
}

/// Appends the lines for one release.
fn push_release_lines(out: &mut Vec<String>, name: &str, r: &Release)
    ensures
        strings_view(final(out)@) == strings_view(old(out)@) + release_lines(name@, *r),
{
    let mut head = joined("Details of release ", name);
    string_extend_str(&mut head, ":");
    push_line(out, head);
    let b = if r.includes_bmda {
        "true"
    } else {
        "false"
    };
    push_line(out, joined("-> Release includes BMDA builds? ", b));
    let probes = probe_list(r.firmware.as_slice());
    push_line(out, joined("-> Release done for probes: ", probes.as_str()));
    let ghost start = strings_view(out@);
    let ghost fs = r.firmware@;
    let mut k: usize = 0;
    while k < r.firmware.len()
        invariant
            k <= fs.len(),
            fs == r.firmware@,
            strings_view(out@) == start + firmware_lines(fs, k as int),
        decreases fs.len() - k,
    {
        let entry = &r.firmware[k];
        push_probe_lines(out, entry.0, &entry.1);
        assert(strings_view(out@) =~= start + firmware_lines(fs, k + 1));
        k = k + 1;
    }
    let ghost middle = strings_view(out@);
    match &r.bmda {
        None => {},
        Some(bmda) => {
            push_line(out, counted("-> Release contains BMDA for ", bmda.len(), " OSes"));
            let ghost start2 = strings_view(out@);
            let ghost xs = bmda@;
            let mut j: usize = 0;
            while j < bmda.len()
                invariant
                    j <= xs.len(),
                    xs == bmda@,
                    strings_view(out@) == start2 + oses_lines(xs, j as int),
                decreases xs.len() - j,
            {
                let entry = &bmda[j];
                push_os_lines(out, entry.0, &entry.1);
                assert(strings_view(out@) =~= start2 + oses_lines(xs, j + 1));
                j = j + 1;
            }
        },
    }
    assert(strings_view(out@) =~= strings_view(old(out)@) + release_lines(name@, *r));
}

/// The details of every release in the metadata, as lines of text, release by release.
pub fn release_details(metadata: &Metadata) -> (r: Vec<String>)
    ensures
        strings_view(r@) == releases_lines(metadata.releases@, metadata.releases@.len() as int),
{
    let mut out: Vec<String> = Vec::new();
    let ghost rs = metadata.releases@;
    assert(strings_view(out@) =~= releases_lines(rs, 0));
    let mut k: usize = 0;
    while k < metadata.releases.len()
        invariant
            k <= rs.len(),
            rs == metadata.releases@,
            strings_view(out@) == releases_lines(rs, k as int),
        decreases rs.len() - k,
    {
        let entry = &metadata.releases[k];
        push_release_lines(&mut out, entry.0.as_str(), &entry.1);
        assert(strings_view(out@) =~= releases_lines(rs, k + 1));
        k = k + 1;
    }
    out
}

} // verus!
