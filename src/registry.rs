//! The ordered set of detectors and the entry point that tries them in turn.
use vstd::prelude::*;
use crate::doc::{
    cfb_spec, is_doc, is_docx, is_ppt, is_pptx, is_xls, is_xlsx, lemma_unknown_first_entry_rejected,
    msooxml, msooxml_spec, name_kind, opens_package, zip_marker,
};
use crate::kind::Kind;
use crate::scan::bytes_at;
use crate::video::{
    avi_spec, flv_spec, is_avi, is_flv, is_m4v, is_mkv, is_mov, is_mp4, is_mpeg, is_webm, is_wmv,
    m4v_spec, mkv_spec, mov_spec, mp4_spec, mpeg_spec, webm_spec, wmv_spec,
};

verus! {

/// Whether `b` is content of kind `k`.
pub open spec fn kind_spec(k: Kind, b: Seq<u8>) -> bool {
    match k {
        Kind::Doc | Kind::Xls | Kind::Ppt => cfb_spec(b),
        Kind::Docx | Kind::Xlsx | Kind::Pptx | Kind::Ooxml => msooxml_spec(b) == Some(k),
        Kind::M4v => m4v_spec(b),
        Kind::Mkv => mkv_spec(b),
        Kind::Webm => webm_spec(b),
        Kind::Mov => mov_spec(b),
        Kind::Avi => avi_spec(b),
        Kind::Wmv => wmv_spec(b),
        Kind::Mpeg => mpeg_spec(b),
        Kind::Flv => flv_spec(b),
        Kind::Mp4 => mp4_spec(b),
    }
}

/// The kinds that the office-package disambiguation resolves to.
pub open spec fn is_package_kind(k: Kind) -> bool {
    k == Kind::Docx || k == Kind::Xlsx || k == Kind::Pptx || k == Kind::Ooxml
}

impl Kind {
    /// Whether `buf` is content of this kind.
    pub fn matches(&self, buf: &[u8]) -> (r: bool)
        ensures
            r == kind_spec(*self, buf@),
    {
        match self {
            Kind::Doc => is_doc(buf),
            Kind::Xls => is_xls(buf),
            Kind::Ppt => is_ppt(buf),
            Kind::Docx => is_docx(buf),
            Kind::Xlsx => is_xlsx(buf),
            Kind::Pptx => is_pptx(buf),
            Kind::Ooxml => match msooxml(buf) {
                Some(k) => k == Kind::Ooxml,
                None => false,
            },
            Kind::M4v => is_m4v(buf),
            Kind::Mkv => is_mkv(buf),
            Kind::Webm => is_webm(buf),
            Kind::Mov => is_mov(buf),
            Kind::Avi => is_avi(buf),
            Kind::Wmv => is_wmv(buf),
            Kind::Mpeg => is_mpeg(buf),
            Kind::Flv => is_flv(buf),
            Kind::Mp4 => is_mp4(buf),
        }
    }
}

/// One entry of a registry.
#[derive(Clone, Copy, Debug, PartialEq, Eq, Structural)]
pub enum Detector {
    /// A fixed-offset signature for one kind.
    Signature(Kind),
    /// The office-package disambiguation, which resolves to one of several kinds.
    Package,
}

/// What a detector reports for `b`.
pub open spec fn run_spec(d: Detector, b: Seq<u8>) -> Option<Kind> {
    match d {
        Detector::Signature(k) => if kind_spec(k, b) {
            Some(k)
        } else {
            None
        },
        Detector::Package => msooxml_spec(b),
    }
}

/// The report of the first detector in `ds` that reports anything.
pub open spec fn first_match(ds: Seq<Detector>, b: Seq<u8>) -> Option<Kind>
    decreases ds.len(),
{
    if ds.len() == 0 {
        None
    } else if run_spec(ds[0], b) is Some {
        run_spec(ds[0], b)
    } else {
        first_match(ds.drop_first(), b)
    }
}

/// The order in which a new registry tries its detectors.
pub open spec fn default_order() -> Seq<Detector> {
    seq![
        Detector::Signature(Kind::M4v),
        Detector::Signature(Kind::Mkv),
        Detector::Signature(Kind::Webm),
        Detector::Signature(Kind::Mov),
        Detector::Signature(Kind::Avi),
        Detector::Signature(Kind::Wmv),
        Detector::Signature(Kind::Mpeg),
        Detector::Signature(Kind::Flv),
        Detector::Signature(Kind::Mp4),
        Detector::Signature(Kind::Doc),
        Detector::Signature(Kind::Xls),
        Detector::Signature(Kind::Ppt),
        Detector::Package,
    ]
}

impl Detector {
    /// Runs this detector on `buf`.
    pub fn run(&self, buf: &[u8]) -> (r: Option<Kind>)
        ensures
            r == run_spec(*self, buf@),
    {
        match self {
            Detector::Signature(k) => if k.matches(buf) {
                Some(*k)
            } else {
                None
            },
            Detector::Package => msooxml(buf),
        }
    }
}

/// An immutable, ordered list of detectors, built once and shared by callers.
pub struct Registry {
    detectors: Vec<Detector>,
}

impl View for Registry {
    type V = Seq<Detector>;

    closed spec fn view(&self) -> Seq<Detector> {
        self.detectors@
    }
}

impl Registry {
    /// The registry of all supported kinds, in their fixed priority order.
    pub fn new() -> (r: Registry)
        ensures
            r@ == default_order(),
    {
        let detectors = vec![
            Detector::Signature(Kind::M4v),
            Detector::Signature(Kind::Mkv),
            Detector::Signature(Kind::Webm),
            Detector::Signature(Kind::Mov),
            Detector::Signature(Kind::Avi),
            Detector::Signature(Kind::Wmv),
            Detector::Signature(Kind::Mpeg),
            Detector::Signature(Kind::Flv),
            Detector::Signature(Kind::Mp4),
            Detector::Signature(Kind::Doc),
            Detector::Signature(Kind::Xls),
            Detector::Signature(Kind::Ppt),
            Detector::Package,
        ];
        let r = Registry { detectors };
        assert(r@ =~= default_order());
        r
    }

    /// The kind reported by the first detector, in order, that reports one.
    pub fn detect(&self, buf: &[u8]) -> (r: Option<Kind>)
        ensures
            r == first_match(self@, buf@),
    {
        let n = self.detectors.len();
        let mut i: usize = 0;
        assert(self@.subrange(0, n as int) =~= self@);
        while i < n
            invariant
                n == self@.len(),
                i <= n,
                first_match(self@, buf@) == first_match(self@.subrange(i as int, n as int), buf@),
            decreases n - i,
        {
            let ghost rest = self@.subrange(i as int, n as int);
            assert(rest.drop_first() =~= self@.subrange(i + 1, n as int));
            let found = self.detectors[i].run(buf);
            if found.is_some() {
                return found;
            }
            i += 1;
        }
        assert(self@.subrange(n as int, n as int).len() == 0);
        None
    }
}

/// Detection depends on the detectors and the buffer alone: detecting the same
/// buffer twice with the same detectors gives the same result.
pub proof fn lemma_detect_idempotent(
    ds: Seq<Detector>,
    b: Seq<u8>,
    first: Option<Kind>,
    second: Option<Kind>,
)
    requires
        first == first_match(ds, b),
        second == first_match(ds, b),
    ensures
        first == second,
{
}

proof fn lemma_first_match_avoids_packages(ds: Seq<Detector>, b: Seq<u8>)
    requires
        forall|i: int|
            0 <= i < ds.len() ==> (#[trigger] run_spec(ds[i], b) matches Some(k)
                ==> !is_package_kind(k)),
    ensures
        first_match(ds, b) matches Some(k) ==> !is_package_kind(k),
    decreases ds.len(),
{
    if ds.len() > 0 {
        let rest = ds.drop_first();
        assert forall|i: int| 0 <= i < rest.len() implies (#[trigger] run_spec(rest[i], b) matches Some(
            k,
        ) ==> !is_package_kind(k)) by {
            assert(rest[i] == ds[i + 1]);
        }
        assert(run_spec(ds[0], b) matches Some(k) ==> !is_package_kind(k));
        lemma_first_match_avoids_packages(rest, b);
    }
}

/// A buffer that opens with a local file header, whose first entry names no
/// package subtype and is neither `[Content_Types].xml` nor `_rels/.rels`,
/// gets no office-package kind from the default detectors.
pub proof fn lemma_unknown_first_entry_rejected_in_registry(b: Seq<u8>)
    requires
        bytes_at(b, zip_marker(), 0),
        name_kind(b, 30) is None,
        !opens_package(b),
    ensures
        first_match(default_order(), b) matches Some(k) ==> !is_package_kind(k),
{
    lemma_unknown_first_entry_rejected(b);
    let ds = default_order();
    assert forall|i: int| 0 <= i < ds.len() implies (#[trigger] run_spec(ds[i], b) matches Some(k)
        ==> !is_package_kind(k)) by {
        if i < 12 {
            assert(ds[i] is Signature && !is_package_kind(ds[i]->Signature_0));
        }
    }
    lemma_first_match_avoids_packages(ds, b);
}

} // verus!
