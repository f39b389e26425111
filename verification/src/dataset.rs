//! The in-memory dataset container under construction: a header fixed by
//! the first validated image, an ordered class list, and the pushed image
//! payloads. Pushing validates each candidate image's dimensions and bit
//! depth against the header and keeps the per-class image counts and the
//! running total consistent.

use vstd::prelude::*;
use vstd::pervasive::VecAdditionalExecFns;
use crate::text::str_eq;

verus! {

/// The container format's version tag.
#[derive(Debug, Clone, Copy, PartialEq, Eq, Structural)]
pub enum Version {
    V0,
}

/// One class: a label taken verbatim from a source directory name, and the
/// running count of images pushed under that label.
#[derive(Debug, Clone)]
pub struct ClassEntry {
    pub label: String,
    pub image_count: u64,
}

/// The container header: version tag, the fixed image dimensions and bit
/// depth, the running image total, and the ordered class list.
#[derive(Debug)]
pub struct Header {
    pub version: Version,
    pub image_width: u16,
    pub image_height: u16,
    pub bit_depth: u8,
    pub image_count: u64,
    pub classes: Vec<ClassEntry>,
}

/// One pushed image payload and the index of the class it belongs to.
#[derive(Debug)]
pub struct ImageRecord {
    pub pixels: Vec<u8>,
    pub class_index: usize,
}

/// The dataset under construction.
#[derive(Debug)]
pub struct Dataset {
    pub header: Header,
    pub images: Vec<ImageRecord>,
}

/// The mathematical shape of a class entry.
#[verifier::ext_equal]
pub struct ClassModel {
    pub label: Seq<char>,
    pub image_count: nat,
}

/// The mathematical shape of a pushed image.
#[verifier::ext_equal]
pub struct ImageModel {
    pub pixels: Seq<u8>,
    pub class_index: int,
}

/// The mathematical shape of the whole dataset.
#[verifier::ext_equal]
pub struct DatasetModel {
    pub version: Version,
    pub image_width: u16,
    pub image_height: u16,
    pub bit_depth: u8,
    pub image_count: nat,
    pub classes: Seq<ClassModel>,
    pub images: Seq<ImageModel>,
}

pub open spec fn classes_model(cs: Seq<ClassEntry>) -> Seq<ClassModel> {
    Seq::new(cs.len(), |j: int| ClassModel { label: cs[j].label@, image_count: cs[j].image_count as nat })
}

pub open spec fn images_model(rs: Seq<ImageRecord>) -> Seq<ImageModel> {
    Seq::new(rs.len(), |i: int| ImageModel { pixels: rs[i].pixels@, class_index: rs[i].class_index as int })
}

impl View for Dataset {
    type V = DatasetModel;

    open spec fn view(&self) -> DatasetModel {
        DatasetModel {
            version: self.header.version,
            image_width: self.header.image_width,
            image_height: self.header.image_height,
            bit_depth: self.header.bit_depth,
            image_count: self.header.image_count as nat,
            classes: classes_model(self.header.classes@),
            images: images_model(self.images@),
        }
    }
}

/// The first index at or after `from` whose class carries `label`, or the
/// length of the class list when no class does.
pub open spec fn find_class(classes: Seq<ClassModel>, label: Seq<char>, from: int) -> int
    decreases classes.len() - from,
{
    if from >= classes.len() {
        classes.len() as int
    } else if classes[from].label == label {
        from
    } else {
        find_class(classes, label, from + 1)
    }
}

/// How many pushed images belong to class index `j`.
pub open spec fn count_class(images: Seq<ImageModel>, j: int) -> nat
    decreases images.len(),
{
    if images.len() == 0 {
        0
    } else {
        count_class(images.drop_last(), j) + (if images.last().class_index == j {
            1nat
        } else {
            0nat
        })
    }
}

/// Well-formedness of a dataset: the image total equals the number of
/// pushed images, every image points at an existing class, class labels are
/// distinct, and every class count equals the number of images pushed under
/// its label.
pub open spec fn dataset_wf(d: DatasetModel) -> bool {
    &&& d.image_count == d.images.len()
    &&& forall|i: int|
        0 <= i < d.images.len() ==> 0 <= (#[trigger] d.images[i]).class_index < d.classes.len()
    &&& forall|j: int, k: int|
        0 <= j < k < d.classes.len() ==> (#[trigger] d.classes[j]).label != (
        #[trigger] d.classes[k]).label
    &&& forall|j: int|
        0 <= j < d.classes.len() ==> (#[trigger] d.classes[j]).image_count == count_class(
            d.images,
            j,
        )
}

/// The dataset a fresh header describes: no classes, no images.
pub open spec fn empty_model(version: Version, width: u16, height: u16, bit_depth: u8) -> DatasetModel {
    DatasetModel {
        version: version,
        image_width: width,
        image_height: height,
        bit_depth: bit_depth,
        image_count: 0,
        classes: Seq::empty(),
        images: Seq::empty(),
    }
}

/// The dataset after pushing one payload under `label`: the image joins the
/// class already carrying the label, whose count grows by one, or a new
/// class with count one is appended in insertion order.
pub open spec fn spec_push(d: DatasetModel, pixels: Seq<u8>, label: Seq<char>) -> DatasetModel {
    let j = find_class(d.classes, label, 0);
    if j < d.classes.len() {
        DatasetModel {
            image_count: (d.image_count + 1) as nat,
            classes: d.classes.update(
                j,
                ClassModel { label: label, image_count: (d.classes[j].image_count + 1) as nat },
            ),
            images: d.images.push(ImageModel { pixels: pixels, class_index: j }),
            ..d
        }
    } else {
        DatasetModel {
            image_count: (d.image_count + 1) as nat,
            classes: d.classes.push(ClassModel { label: label, image_count: 1 }),
            images: d.images.push(ImageModel { pixels: pixels, class_index: j }),
            ..d
        }
    }
}

/// The builder's rejection of a candidate image that does not match the
/// header's dimensions or bit depth.
#[derive(Debug, Clone, Copy, PartialEq, Eq, Structural)]
pub enum PushError {
    HeaderMismatch,
}

pub proof fn lemma_find_class(classes: Seq<ClassModel>, label: Seq<char>, from: int)
    requires
        0 <= from <= classes.len(),
    ensures
        from <= find_class(classes, label, from) <= classes.len(),
        find_class(classes, label, from) < classes.len() ==> classes[find_class(
            classes,
            label,
            from,
        )].label == label,
        forall|k: int| from <= k < find_class(classes, label, from) ==> classes[k].label != label,
    decreases classes.len() - from,
{
    if from < classes.len() && classes[from].label != label {
        lemma_find_class(classes, label, from + 1);
    }
}

pub proof fn lemma_count_push(images: Seq<ImageModel>, rec: ImageModel, j: int)
    ensures
        count_class(images.push(rec), j) == count_class(images, j) + (if rec.class_index == j {
            1nat
        } else {
            0nat
        }),
{
    assert(images.push(rec).drop_last() =~= images);
    assert(images.push(rec).last() == rec);
}

pub proof fn lemma_count_le_len(images: Seq<ImageModel>, j: int)
    ensures
        count_class(images, j) <= images.len(),
    decreases images.len(),
{
    if images.len() > 0 {
        lemma_count_le_len(images.drop_last(), j);
    }
}

pub proof fn lemma_count_absent(images: Seq<ImageModel>, j: int)
    requires
        forall|i: int| 0 <= i < images.len() ==> (#[trigger] images[i]).class_index != j,
    ensures
        count_class(images, j) == 0,
    decreases images.len(),
{
    if images.len() > 0 {
        assert(forall|i: int|
            0 <= i < images.len() - 1 ==> images.drop_last()[i] == images[i]);
        lemma_count_absent(images.drop_last(), j);
    }
}

/// Pushing preserves well-formedness.
pub proof fn lemma_spec_push_wf(d: DatasetModel, pixels: Seq<u8>, label: Seq<char>)
    requires
        dataset_wf(d),
    ensures
        dataset_wf(spec_push(d, pixels, label)),
{
    lemma_find_class(d.classes, label, 0);
    let j = find_class(d.classes, label, 0);
    let rec = ImageModel { pixels: pixels, class_index: j };
    let d2 = spec_push(d, pixels, label);
    assert forall|k: int| 0 <= k < d2.classes.len() implies (#[trigger] d2.classes[k]).image_count
        == count_class(d2.images, k) by {
        lemma_count_push(d.images, rec, k);
        if j == d.classes.len() && k == j {
            lemma_count_absent(d.images, j);
        }
    }
}

impl Dataset {
    pub open spec fn wf(self) -> bool {
        dataset_wf(self@)
    }

    /// Start a dataset from a freshly created header: zero image count and
    /// an empty class list.
    pub fn with_header(header: Header) -> (r: Dataset)
        requires
            header.image_count == 0,
            header.classes@.len() == 0,
        ensures
            r.wf(),
            r@ == empty_model(header.version, header.image_width, header.image_height, header.bit_depth),
    {
        let r = Dataset { header: header, images: Vec::new() };
        proof {
            assert(r@ =~~= empty_model(
                r.header.version,
                r.header.image_width,
                r.header.image_height,
                r.header.bit_depth,
            ));
        }
        r
    }

    /// Push one decoded payload under a class label. The candidate
    /// dimensions and bit depth must match the header's exactly; a
    /// mismatched image is rejected and the dataset is left unchanged.
    pub fn push(
        &mut self,
        pixels: Vec<u8>,
        width: u16,
        height: u16,
        bit_depth: u8,
        label: &String,
    ) -> (r: Result<(), PushError>)
        requires
            old(self).wf(),
        ensures
            final(self).wf(),
            (r is Ok) == (width == old(self)@.image_width && height == old(self)@.image_height
                && bit_depth == old(self)@.bit_depth),
            r is Err ==> final(self)@ == old(self)@ && r == Err::<(), PushError>(
                PushError::HeaderMismatch,
            ),
            r is Ok ==> final(self)@ == spec_push(old(self)@, pixels@, label@),
    {
        if width != self.header.image_width || height != self.header.image_height || bit_depth
            != self.header.bit_depth {
            return Err(PushError::HeaderMismatch);
        }
        proof {
            lemma_find_class(old(self)@.classes, label@, 0);
            lemma_spec_push_wf(old(self)@, pixels@, label@);
        }
        let j = find_class_index(&self.header.classes, label);
        let ncls = self.header.classes.len();
        if j < ncls {
            proof {
                lemma_count_le_len(old(self)@.images, j as int);
            }
            self.images.push(ImageRecord { pixels: pixels, class_index: j });
            let m = self.images.len();
            let c = self.header.classes[j].image_count;
            let lbl = self.header.classes[j].label.clone();
            self.header.classes.set(j, ClassEntry { label: lbl, image_count: c + 1 });
            self.header.image_count = m as u64;
            proof {
                let target = spec_push(old(self)@, pixels@, label@);
                assert(self@.classes =~= target.classes);
                assert(self@.images =~= target.images);
                assert(self@ =~~= target);
            }
            Ok(())
        } else {
            self.images.push(ImageRecord { pixels: pixels, class_index: j });
            let m = self.images.len();
            self.header.classes.push(ClassEntry { label: label.clone(), image_count: 1 });
            self.header.image_count = m as u64;
            proof {
                let target = spec_push(old(self)@, pixels@, label@);
                assert(self@.classes =~= target.classes);
                assert(self@.images =~= target.images);
                assert(self@ =~~= target);
            }
            Ok(())
        }
    }

    /// The complete byte image of the dataset, ready to be written to disk
    /// as the container file.
    pub fn serialize(&self) -> (r: Vec<u8>)
        ensures
            r@ == spec_serialize(self@),
    {
        let mut out: Vec<u8> = Vec::new();
        out.push(74);
        out.push(68);
        out.push(88);
        out.push(48);
        push_u16(&mut out, self.header.image_width);
        push_u16(&mut out, self.header.image_height);
        out.push(self.header.bit_depth);
        push_u64(&mut out, self.header.image_count);
        let ncls = self.header.classes.len();
        push_u64(&mut out, ncls as u64);
        proof {
            assert(out@ =~= header_bytes(self@));
        }
        let ghost after_header = out@;
        let mut j: usize = 0;
        while j < ncls
            invariant
                j <= ncls,
                ncls == self.header.classes@.len(),
                out@ == after_header + classes_bytes(self@.classes.subrange(0, j as int)),
            decreases ncls - j,
        {
            let lbl = self.header.classes[j].label.clone();
            let cnt = self.header.classes[j].image_count;
            let chars_n = lbl.as_str().unicode_len();
            push_u64(&mut out, chars_n as u64);
            push_label(&mut out, &lbl);
            push_u64(&mut out, cnt);
            proof {
                assert(self@.classes[j as int].label == lbl@);
                assert(self@.classes[j as int].image_count == cnt as nat);
                let pre = self@.classes.subrange(0, j as int);
                let cur = self@.classes.subrange(0, j + 1);
                assert(cur.drop_last() =~= pre);
                assert(cur.last() == self@.classes[j as int]);
                assert(out@ =~= after_header + classes_bytes(cur));
            }
            j = j + 1;
        }
        proof {
            assert(self@.classes.subrange(0, ncls as int) =~= self@.classes);
        }
        let ghost after_classes = out@;
        let nimg = self.images.len();
        let mut i: usize = 0;
        while i < nimg
            invariant
                i <= nimg,
                nimg == self.images@.len(),
                out@ == after_classes + images_bytes(self@.images.subrange(0, i as int)),
            decreases nimg - i,
        {
            let idx = self.images[i].class_index;
            push_u64(&mut out, idx as u64);
            let plen = self.images[i].pixels.len();
            push_u64(&mut out, plen as u64);
            push_pixels(&mut out, &self.images[i].pixels);
            proof {
                assert(self@.images[i as int].class_index == idx as int);
                assert(self@.images[i as int].pixels == self.images@[i as int].pixels@);
                let pre = self@.images.subrange(0, i as int);
                let cur = self@.images.subrange(0, i + 1);
                assert(cur.drop_last() =~= pre);
                assert(cur.last() == self@.images[i as int]);
                assert(out@ =~= after_classes + images_bytes(cur));
            }
            i = i + 1;
        }
        proof {
            assert(self@.images.subrange(0, nimg as int) =~= self@.images);
            assert(out@ =~= spec_serialize(self@));
        }
        out
    }
}

/// A 16-bit value as two little-endian bytes.
pub open spec fn le_u16(x: u16) -> Seq<u8> {
    seq![(x % 256) as u8, ((x / 256) % 256) as u8]
}

/// A 32-bit value as four little-endian bytes.
pub open spec fn le_u32(x: u32) -> Seq<u8> {
    seq![
        (x % 256) as u8,
        ((x / 256) % 256) as u8,
        ((x / 65536) % 256) as u8,
        ((x / 16777216) % 256) as u8,
    ]
}

/// A 64-bit value as eight little-endian bytes.
pub open spec fn le_u64(x: u64) -> Seq<u8> {
    seq![
        (x % 256) as u8,
        ((x / 256) % 256) as u8,
        ((x / 65536) % 256) as u8,
        ((x / 16777216) % 256) as u8,
        ((x / 4294967296) % 256) as u8,
        ((x / 1099511627776) % 256) as u8,
        ((x / 281474976710656) % 256) as u8,
        ((x / 72057594037927936) % 256) as u8,
    ]
}

/// A label's bytes: each character as its little-endian 32-bit code point,
/// in order.
pub open spec fn label_bytes(label: Seq<char>) -> Seq<u8>
    decreases label.len(),
{
    if label.len() == 0 {
        Seq::empty()
    } else {
        label_bytes(label.drop_last()) + le_u32(label.last() as u32)
    }
}

/// One class entry's bytes: character count, label, image count.
pub open spec fn class_bytes(c: ClassModel) -> Seq<u8> {
    le_u64(c.label.len() as u64) + label_bytes(c.label) + le_u64(c.image_count as u64)
}

/// The class list's bytes, in insertion order.
pub open spec fn classes_bytes(classes: Seq<ClassModel>) -> Seq<u8>
    decreases classes.len(),
{
    if classes.len() == 0 {
        Seq::empty()
    } else {
        classes_bytes(classes.drop_last()) + class_bytes(classes.last())
    }
}

/// One image record's bytes: class index, payload length, payload.
pub open spec fn image_bytes(im: ImageModel) -> Seq<u8> {
    le_u64(im.class_index as u64) + le_u64(im.pixels.len() as u64) + im.pixels
}

/// The image records' bytes, in push order.
pub open spec fn images_bytes(images: Seq<ImageModel>) -> Seq<u8>
    decreases images.len(),
{
    if images.len() == 0 {
        Seq::empty()
    } else {
        images_bytes(images.drop_last()) + image_bytes(images.last())
    }
}

/// The fixed leading bytes: the tag "JDX0", the dimensions and bit depth,
/// the image total and the class count.
pub open spec fn header_bytes(d: DatasetModel) -> Seq<u8> {
    seq![74u8, 68u8, 88u8, 48u8] + le_u16(d.image_width) + le_u16(d.image_height) + seq![
        d.bit_depth,
    ] + le_u64(d.image_count as u64) + le_u64(d.classes.len() as u64)
}

/// The complete byte image of a dataset.
pub open spec fn spec_serialize(d: DatasetModel) -> Seq<u8> {
    header_bytes(d) + classes_bytes(d.classes) + images_bytes(d.images)
}

fn push_u16(out: &mut Vec<u8>, x: u16)
    ensures
        final(out)@ == old(out)@ + le_u16(x),
{
    out.push((x % 256) as u8);
    out.push(((x / 256) % 256) as u8);
    proof {
        assert(out@ =~= old(out)@ + le_u16(x));
    }
}

fn push_u32(out: &mut Vec<u8>, x: u32)
    ensures
        final(out)@ == old(out)@ + le_u32(x),
{
    out.push((x % 256) as u8);
    out.push(((x / 256) % 256) as u8);
    out.push(((x / 65536) % 256) as u8);
    out.push(((x / 16777216) % 256) as u8);
    proof {
        assert(out@ =~= old(out)@ + le_u32(x));
    }
}

fn push_u64(out: &mut Vec<u8>, x: u64)
    ensures
        final(out)@ == old(out)@ + le_u64(x),
{
    out.push((x % 256) as u8);
    out.push(((x / 256) % 256) as u8);
    out.push(((x / 65536) % 256) as u8);
    out.push(((x / 16777216) % 256) as u8);
    out.push(((x / 4294967296) % 256) as u8);
    out.push(((x / 1099511627776) % 256) as u8);
    out.push(((x / 281474976710656) % 256) as u8);
    out.push(((x / 72057594037927936) % 256) as u8);
    proof {
        assert(out@ =~= old(out)@ + le_u64(x));
    }
}

fn push_label(out: &mut Vec<u8>, label: &String)
    ensures
        final(out)@ == old(out)@ + label_bytes(label@),
{
    let ghost base = out@;
    let s = label.as_str();
    let n = s.unicode_len();
    let mut i: usize = 0;
    while i < n
        invariant
            i <= n,
            n == s@.len(),
            s@ == label@,
            out@ == base + label_bytes(label@.subrange(0, i as int)),
        decreases n - i,
    {
        let c = s.get_char(i);
        push_u32(out, c as u32);
        proof {
            let pre = label@.subrange(0, i as int);
            let cur = label@.subrange(0, i + 1);
            assert(cur.drop_last() =~= pre);
            assert(cur.last() == label@[i as int]);
            assert(out@ =~= base + label_bytes(cur));
        }
        i = i + 1;
    }
    proof {
        assert(label@.subrange(0, n as int) =~= label@);
    }
}

fn push_pixels(out: &mut Vec<u8>, pixels: &Vec<u8>)
    ensures
        final(out)@ == old(out)@ + pixels@,
{
    let ghost base = out@;
    let n = pixels.len();
    let mut k: usize = 0;
    while k < n
        invariant
            k <= n,
            n == pixels@.len(),
            out@ == base + pixels@.subrange(0, k as int),
        decreases n - k,
    {
        out.push(pixels[k]);
        proof {
            assert(pixels@.subrange(0, k + 1) =~= pixels@.subrange(0, k as int).push(
                pixels@[k as int],
            ));
            assert(out@ =~= base + pixels@.subrange(0, k + 1));
        }
        k = k + 1;
    }
    proof {
        assert(pixels@.subrange(0, n as int) =~= pixels@);
    }
}

/// The index of the class carrying `label`, or the class count when no
/// class does.
fn find_class_index(classes: &Vec<ClassEntry>, label: &String) -> (r: usize)
    ensures
        r as int == find_class(classes_model(classes@), label@, 0),
        r <= classes@.len(),
{
    let n = classes.len();
    let mut j: usize = 0;
    while j < n
        invariant
            j <= n,
            n == classes@.len(),
            find_class(classes_model(classes@), label@, 0) == find_class(
                classes_model(classes@),
                label@,
                j as int,
            ),
        decreases n - j,
    {
        proof {
            assert(classes_model(classes@)[j as int].label == classes@[j as int].label@);
        }
        if str_eq(classes[j].label.as_str(), label.as_str()) {
            return j;
        }
        j = j + 1;
    }
    j
}

} // verus!
