use vstd::prelude::*;

use crate::keyed::{key_index, value_of, values_of, Registry};
use crate::text::{
    is_space, is_text_less, is_whitespace, lemma_text_less_transitive, lower_of, lowercase, text_less,
};

verus! {

/// A desktop pet placed on screen.
#[derive(Debug)]
pub struct Pet {
    pub id: String,
    pub file_path: String,
    pub x: i32,
    pub y: i32,
    pub width: u32,
    pub height: u32,
}

impl Clone for Pet {
    fn clone(&self) -> (r: Pet)
        ensures
            r == *self,
    {
        Pet {
            id: self.id.clone(),
            file_path: self.file_path.clone(),
            x: self.x,
            y: self.y,
            width: self.width,
            height: self.height,
        }
    }
}

/// The pets as they are saved.
#[derive(Clone, Debug)]
pub struct PetsData {
    pub pets: Vec<Pet>,
}

/// A pet picture offered by the catalog.
#[derive(Clone, Debug)]
pub struct CatalogPet {
    pub id: String,
    pub name: String,
    pub category: String,
    pub preview: String,
}

/// Row and frame count of one animation in a sprite sheet.
#[derive(Clone, Debug)]
pub struct ShimejiAnimPos {
    pub line: u32,
    pub count: u32,
}

/// The animations of a sprite sheet, each one optional.
#[derive(Clone, Debug, Default)]
pub struct ShimejiAnimePos {
    pub stand: Option<ShimejiAnimPos>,
    pub walk: Option<ShimejiAnimPos>,
    pub sit: Option<ShimejiAnimPos>,
    pub greet: Option<ShimejiAnimPos>,
    pub crawl: Option<ShimejiAnimPos>,
    pub climb: Option<ShimejiAnimPos>,
    pub jump: Option<ShimejiAnimPos>,
    pub fall: Option<ShimejiAnimPos>,
    pub drag: Option<ShimejiAnimPos>,
}

/// What the pet catalog shows of an installed pet package.
#[derive(Clone, Debug)]
pub struct DPetPackageInfo {
    pub id: String,
    pub name: String,
    pub author: Option<String>,
    pub description: Option<String>,
    pub states: Vec<String>,
    pub preview_path: Option<String>,
}

/// Frame rate of a pet package that names none.
fn default_fps() -> (r: u32)
    ensures
        r == 12,
{
    12
}

/// Default for the movement and interaction switches of a pet package.
fn default_true() -> (r: bool)
    ensures
        r,
{
    true
}

/// Frame width of a pet package that names none.
fn default_width() -> (r: u32)
    ensures
        r == 128,
{
    128
}

/// Frame height of a pet package that names none.
fn default_height() -> (r: u32)
    ensures
        r == 128,
{
    128
}

/// Bounce count of a pet package that names none.
fn default_bouncing() -> (r: u32)
    ensures
        r == 2,
{
    2
}

/// Frame size, rate and bounce count of a package that names none of them,
/// together with its movement switch.
pub fn package_defaults() -> (r: (u32, u32, u32, u32, bool))
    ensures
        r == (128u32, 128u32, 2u32, 12u32, true),
{
    (default_width(), default_height(), default_bouncing(), default_fps(), default_true())
}

/// The file extensions, in lower case, of pictures a pet can show.
pub open spec fn is_supported_extension(ext: Seq<char>) -> bool {
    ext == "gif"@ || ext == "png"@ || ext == "jpg"@ || ext == "jpeg"@ || ext == "svg"@
}

/// Whether a string holds exactly the given text.
fn is_text(s: &String, literal: &str) -> (r: bool)
    ensures
        r == (s@ == literal@),
{
    let expected = String::from_str(literal);
    *s == expected
}

/// The media type for a lower-case picture extension.
pub open spec fn mime_for(ext: Seq<char>) -> Seq<char> {
    if ext == "gif"@ {
        "image/gif"@
    } else if ext == "png"@ {
        "image/png"@
    } else if ext == "jpg"@ || ext == "jpeg"@ {
        "image/jpeg"@
    } else if ext == "svg"@ {
        "image/svg+xml"@
    } else {
        "application/octet-stream"@
    }
}

/// The media type for a picture extension already in lower case.
pub fn mime_for_lowercase(ext: &String) -> (r: &'static str)
    ensures
        r@ == mime_for(ext@),
{
    if is_text(ext, "gif") {
        "image/gif"
    } else if is_text(ext, "png") {
        "image/png"
    } else if is_text(ext, "jpg") || is_text(ext, "jpeg") {
        "image/jpeg"
    } else if is_text(ext, "svg") {
        "image/svg+xml"
    } else {
        "application/octet-stream"
    }
}

/// Texts of a list of strings.
pub open spec fn texts_of(v: Seq<String>) -> Seq<Seq<char>> {
    v.map_values(|s: String| s@)
}

/// The list with `name` added at the end when the animation is present.
pub open spec fn pushed_if(present: bool, list: Seq<Seq<char>>, name: Seq<char>) -> Seq<Seq<char>> {
    if present {
        list.push(name)
    } else {
        list
    }
}

/// Adds `name` to the list when the animation is present.
fn push_if(out: &mut Vec<String>, present: bool, name: &str)
    ensures
        texts_of(final(out)@) == pushed_if(present, texts_of(old(out)@), name@),
{
    if present {
        out.push(String::from_str(name));
        assert(texts_of(out@) =~= texts_of(old(out)@).push(name@));
    }
}

/// The names of the animations present: stand, walk, fall, drag, sit, greet,
/// jump, crawl, climb, in that order.
pub open spec fn present_states(a: ShimejiAnimePos) -> Seq<Seq<char>> {
    let s = pushed_if(a.stand is Some, Seq::empty(), "stand"@);
    let s = pushed_if(a.walk is Some, s, "walk"@);
    let s = pushed_if(a.fall is Some, s, "fall"@);
    let s = pushed_if(a.drag is Some, s, "drag"@);
    let s = pushed_if(a.sit is Some, s, "sit"@);
    let s = pushed_if(a.greet is Some, s, "greet"@);
    let s = pushed_if(a.jump is Some, s, "jump"@);
    let s = pushed_if(a.crawl is Some, s, "crawl"@);
    pushed_if(a.climb is Some, s, "climb"@)
}

impl ShimejiAnimePos {
    /// The names of the animations present, in the order the catalog lists
    /// them.
    pub fn states(&self) -> (r: Vec<String>)
        ensures
            texts_of(r@) == present_states(*self),
    {
        let mut out: Vec<String> = Vec::new();
        assert(texts_of(out@) =~= Seq::<Seq<char>>::empty());
        push_if(&mut out, self.stand.is_some(), "stand");
        push_if(&mut out, self.walk.is_some(), "walk");
        push_if(&mut out, self.fall.is_some(), "fall");
        push_if(&mut out, self.drag.is_some(), "drag");
        push_if(&mut out, self.sit.is_some(), "sit");
        push_if(&mut out, self.greet.is_some(), "greet");
        push_if(&mut out, self.jump.is_some(), "jump");
        push_if(&mut out, self.crawl.is_some(), "crawl");
        push_if(&mut out, self.climb.is_some(), "climb");
        out
    }
}

/// The result of `char::to_uppercase` on a character, as text.
pub uninterp spec fn upper_of(c: char) -> Seq<char>;

/// Relies on char::to_uppercase: the upper-case form of one character, which
/// may be several characters; it depends on the character alone.
#[verifier::external_body]
fn uppercase_char(c: char) -> (r: String)
    ensures
        r@ == upper_of(c),
{
    c.to_uppercase().collect::<String>()
}

/// Whether a character separates the words of a pet's name.
pub open spec fn is_name_separator(c: char) -> bool {
    is_space(c) || c == '_' || c == '-'
}

/// The words of `s` with their first characters replaced by their upper-case
/// forms `ups` (one per character of `s`), separated by single spaces;
/// `in_word` tells whether the text before `s` ended inside a word, `any`
/// whether a word was already written.
pub open spec fn pretty_from(s: Seq<char>, ups: Seq<Seq<char>>, in_word: bool, any: bool) -> Seq<
    char,
>
    decreases s.len(),
{
    if s.len() == 0 {
        Seq::empty()
    } else {
        let c = s[0];
        let rest = pretty_from(s.drop_first(), ups.drop_first(), !is_name_separator(c), any
            || !is_name_separator(c));
        if is_name_separator(c) {
            rest
        } else if in_word {
            seq![c] + rest
        } else {
            (if any {
                seq![' ']
            } else {
                Seq::empty()
            }) + ups[0] + rest
        }
    }
}

/// The upper-case forms of the characters of a text.
pub open spec fn uppers_of(s: Seq<char>) -> Seq<Seq<char>> {
    s.map_values(|c: char| upper_of(c))
}

/// A file or folder name as shown in the catalog: underscores and dashes
/// become spaces, each word starts in upper case, and an empty name reads
/// `Pet`.
pub open spec fn prettified(raw: Seq<char>) -> Seq<char> {
    if raw.len() == 0 {
        "Pet"@
    } else {
        pretty_from(raw, uppers_of(raw), false, false)
    }
}

/// Texts of a list of strings, as a sequence of texts.
pub open spec fn string_texts(v: Seq<String>) -> Seq<Seq<char>> {
    v.map_values(|s: String| s@)
}

/// The display name for a file or folder name whose characters' upper-case
/// forms are already known, one per character.
pub fn prettify_with_uppers(raw: &str, uppers: &Vec<String>) -> (r: String)
    requires
        uppers@.len() == raw@.len(),
    ensures
        r@ == (if raw@.len() == 0 {
            "Pet"@
        } else {
            pretty_from(raw@, string_texts(uppers@), false, false)
        }),
{
    let chars = crate::text::chars_of(raw);
    let n = chars.len();
    if n == 0 {
        return String::from_str("Pet");
    }
    let ghost ups = string_texts(uppers@);
    let mut out = String::new();
    let mut in_word = false;
    let mut any = false;
    let mut i: usize = 0;
    assert(chars@.subrange(0, n as int) =~= chars@);
    assert(ups.subrange(0, n as int) =~= ups);
    while i < n
        invariant
            n == chars@.len(),
            chars@ == raw@,
            uppers@.len() == n,
            ups == string_texts(uppers@),
            i <= n,
            pretty_from(raw@, ups, false, false) == out@ + pretty_from(
                chars@.subrange(i as int, n as int),
                ups.subrange(i as int, n as int),
                in_word,
                any,
            ),
        decreases n - i,
    {
        let c = chars[i];
        let ghost sub = chars@.subrange(i as int, n as int);
        let ghost usub = ups.subrange(i as int, n as int);
        let ghost next = chars@.subrange(i + 1, n as int);
        let ghost unext = ups.subrange(i + 1, n as int);
        assert(sub[0] == c);
        assert(usub[0] == uppers@[i as int]@);
        assert(sub.drop_first() =~= next);
        assert(usub.drop_first() =~= unext);
        let ghost before = out@;
        let sep = is_whitespace(c) || c == '_' || c == '-';
        if sep {
        } else if in_word {
            crate::text::push_char(&mut out, c);
            assert(out@ + pretty_from(next, unext, true, any) =~= before + (seq![c] + pretty_from(
                next,
                unext,
                true,
                any,
            )));
        } else {
            let ghost was_any = any;
            if any {
                crate::text::push_char(&mut out, ' ');
            }
            out.append(uppers[i].as_str());
            assert(out@ + pretty_from(next, unext, true, true) =~= before + ((if was_any {
                seq![' ']
            } else {
                Seq::<char>::empty()
            }) + usub[0] + pretty_from(next, unext, true, true)));
        }
        any = any || !sep;
        in_word = !sep;
        i = i + 1;
    }
    assert(out@ + pretty_from(
        chars@.subrange(n as int, n as int),
        ups.subrange(n as int, n as int),
        in_word,
        any,
    ) =~= out@);
    out
}

/// The display name for a catalog entry's file or folder name.
pub fn prettify_name(raw: &str) -> (r: String)
    ensures
        r@ == prettified(raw@),
{
    let chars = crate::text::chars_of(raw);
    let mut uppers: Vec<String> = Vec::new();
    let mut i: usize = 0;
    while i < chars.len()
        invariant
            i <= chars@.len(),
            chars@ == raw@,
            uppers@.len() == i,
            string_texts(uppers@) == uppers_of(chars@.subrange(0, i as int)),
        decreases chars@.len() - i,
    {
        let u = uppercase_char(chars[i]);
        let ghost prev = uppers@;
        uppers.push(u);
        assert forall|k: int| 0 <= k <= i implies #[trigger] string_texts(uppers@)[k] == uppers_of(
            chars@.subrange(0, i + 1),
        )[k] by {
            if k < i {
                assert(uppers@[k] == prev[k]);
                assert(string_texts(prev)[k] == uppers_of(chars@.subrange(0, i as int))[k]);
            }
        }
        i = i + 1;
        assert(string_texts(uppers@) =~= uppers_of(chars@.subrange(0, i as int)));
    }
    assert(chars@.subrange(0, chars@.len() as int) =~= chars@);
    prettify_with_uppers(raw, &uppers)
}

/// Catalog entries in order of their names without regard to case: no
/// entry's folded name sorts before that of an entry ahead of it.
pub open spec fn sorted_by_folded_name(s: Seq<CatalogPet>) -> bool {
    forall|i: int, j: int|
        0 <= i < j < s.len() ==> !text_less(lower_of(s[j].name@), lower_of(s[i].name@))
}

/// Whether `a`'s name sorts before `b`'s without regard to case.
fn name_before(a: &CatalogPet, b: &CatalogPet) -> (r: bool)
    ensures
        r == text_less(lower_of(a.name@), lower_of(b.name@)),
{
    let x = lowercase(a.name.as_str());
    let y = lowercase(b.name.as_str());
    is_text_less(x.as_str(), y.as_str())
}

/// The catalog entries sorted by name without regard to case, entries with
/// equal folded names keeping their order.
pub fn sort_catalog(pets: Vec<CatalogPet>) -> (r: Vec<CatalogPet>)
    ensures
        sorted_by_folded_name(r@),
        r@.to_multiset() == pets@.to_multiset(),
{
    let ghost all = pets@;
    let mut rest = pets;
    let mut out: Vec<CatalogPet> = Vec::new();
    let n = rest.len();
    let mut i: usize = 0;
    assert(out@ =~= all.subrange(0, 0));
    assert(rest@ =~= all.subrange(0, n as int));
    while i < n
        invariant
            n == all.len(),
            i <= n,
            rest@ == all.subrange(i as int, n as int),
            sorted_by_folded_name(out@),
            out@.to_multiset() == all.subrange(0, i as int).to_multiset(),
        decreases n - i,
    {
        let item = rest.remove(0);
        assert(item == all[i as int]);
        assert(rest@ =~= all.subrange(i + 1, n as int));
        let mut at: usize = 0;
        while at < out.len() && !name_before(&item, &out[at])
            invariant
                at <= out@.len(),
                forall|k: int|
                    0 <= k < at ==> !text_less(lower_of(item.name@), lower_of(#[trigger] out@[k].name@)),
            decreases out@.len() - at,
        {
            at = at + 1;
        }
        let ghost before = out@;
        let ghost ki = lower_of(item.name@);
        assert(forall|k: int| 0 <= k < at ==> !text_less(ki, lower_of(#[trigger] before[k].name@)));
        assert(at < before.len() ==> text_less(ki, lower_of(before[at as int].name@)));
        proof {
            if at < before.len() {
                crate::text::lemma_text_less_asymmetric(ki, lower_of(before[at as int].name@));
            }
            vstd::seq_lib::to_multiset_insert(before, at as int, item);
            vstd::seq_lib::to_multiset_build(all.subrange(0, i as int), item);
            assert(all.subrange(0, i + 1) =~= all.subrange(0, i as int).push(item));
        }
        out.insert(at, item);
        assert forall|x: int, y: int| 0 <= x < y < out@.len() implies !text_less(
            lower_of(out@[y].name@),
            lower_of(out@[x].name@),
        ) by {
            if y < at {
                assert(out@[x] == before[x] && out@[y] == before[y]);
            } else if y == at {
                assert(out@[x] == before[x]);
                assert(out@[y] == item);
            } else if x < at {
                assert(out@[x] == before[x] && out@[y] == before[y - 1]);
                if text_less(lower_of(before[y - 1].name@), lower_of(before[x].name@)) {
                }
            } else if x == at {
                assert(out@[y] == before[y - 1]);
                assert(out@[x] == item);
                assert(text_less(ki, lower_of(before[at as int].name@)));
                if text_less(lower_of(before[y - 1].name@), ki) {
                    if y - 1 > at {
                        lemma_text_less_transitive(
                            lower_of(before[y - 1].name@),
                            ki,
                            lower_of(before[at as int].name@),
                        );
                    }
                }
            } else {
                assert(out@[x] == before[x - 1] && out@[y] == before[y - 1]);
            }
        }
        i = i + 1;
    }
    assert(all.subrange(0, n as int) =~= all);
    out
}

/// The pet of `p` moved to `(x, y)`.
pub open spec fn moved(p: Pet, x: i32, y: i32) -> Pet {
    Pet { x, y, ..p }
}

/// The pet of `p` resized to `width` by `height`.
pub open spec fn resized(p: Pet, width: u32, height: u32) -> Pet {
    Pet { width, height, ..p }
}

/// The pets after changing the one under `id`, if there is one.
pub open spec fn with_changed(
    m: Seq<(Seq<char>, Pet)>,
    id: Seq<char>,
    change: spec_fn(Pet) -> Pet,
) -> Seq<(Seq<char>, Pet)> {
    match key_index(m, id) {
        Some(i) => m.update(i as int, (id, change(m[i as int].1))),
        None => m,
    }
}

/// The pets on the desktop, one per id, and where they are saved.
pub struct PetManager {
    pets: Registry<Pet>,
    save_path: String,
}

impl PetManager {
    /// The pets, keyed by id.
    pub closed spec fn view(&self) -> Seq<(Seq<char>, Pet)> {
        self.pets.view()
    }

    /// The file the pets are saved to.
    pub closed spec fn spec_save_path(&self) -> Seq<char> {
        self.save_path@
    }

    /// A manager without pets that saves to `save_path`.
    pub fn new(save_path: String) -> (r: PetManager)
        ensures
            r.view() == Seq::<(Seq<char>, Pet)>::empty(),
            r.spec_save_path() == save_path@,
    {
        PetManager { pets: Registry::new(), save_path }
    }

    /// The file the pets are saved to.
    pub fn save_path(&self) -> (r: &String)
        ensures
            r@ == self.spec_save_path(),
    {
        &self.save_path
    }

    /// Whether a file with this extension, in any case, can be shown as a pet.
    pub fn is_supported_asset(extension: Option<&str>) -> (r: bool)
        ensures
            r == (extension matches Some(e) && is_supported_extension(lower_of(e@))),
    {
        match extension {
            Some(e) => {
                let lower = lowercase(e);
                PetManager::is_supported_lowercase_extension(&lower)
            },
            None => false,
        }
    }

    /// Whether a file with this extension, already in lower case, can be
    /// shown as a pet.
    pub fn is_supported_lowercase_extension(ext: &String) -> (r: bool)
        ensures
            r == is_supported_extension(ext@),
    {
        is_text(ext, "gif") || is_text(ext, "png") || is_text(ext, "jpg") || is_text(ext, "jpeg")
            || is_text(ext, "svg")
    }

    /// The media type of a pet picture with this extension, in any case.
    pub fn mime_from_extension(extension: Option<&str>) -> (r: &'static str)
        ensures
            r@ == match extension {
                Some(e) => mime_for(lower_of(e@)),
                None => "application/octet-stream"@,
            },
    {
        match extension {
            Some(e) => {
                let lower = lowercase(e);
                mime_for_lowercase(&lower)
            },
            None => "application/octet-stream",
        }
    }

    /// Adds a pet under its own id, replacing the pet with that id.
    pub fn insert_pet(&mut self, pet: Pet)
        ensures
            final(self).view() == crate::keyed::with_entry(old(self).view(), pet.id@, pet),
            value_of(final(self).view(), pet.id@) == Some(pet),
            final(self).spec_save_path() == old(self).spec_save_path(),
    {
        let id = pet.id.clone();
        self.pets.insert(id, pet);
    }

    /// Every pet, in order.
    pub fn get_all_pets(&self) -> (r: Vec<Pet>)
        ensures
            r@ == values_of(self.view()),
    {
        let n = self.pets.len();
        let mut out: Vec<Pet> = Vec::new();
        let mut i: usize = 0;
        while i < n
            invariant
                n == self.view().len(),
                i <= n,
                out@ == values_of(self.view()).subrange(0, i as int),
            decreases n - i,
        {
            out.push(self.pets.value_at(i).clone());
            i = i + 1;
            assert(out@ =~= values_of(self.view()).subrange(0, i as int));
        }
        assert(out@ =~= values_of(self.view()));
        out
    }

    /// The pet with the given id, if there is one.
    pub fn get_pet(&self, pet_id: &str) -> (r: Option<Pet>)
        ensures
            r == value_of(self.view(), pet_id@),
    {
        match self.pets.get(pet_id) {
            Some(p) => Some(p.clone()),
            None => None,
        }
    }

    /// Moves the pet with the given id; an unknown id changes nothing.
    pub fn update_pet_position(&mut self, pet_id: String, x: i32, y: i32)
        ensures
            final(self).view() == with_changed(old(self).view(), pet_id@, |p: Pet| moved(p, x, y)),
            final(self).spec_save_path() == old(self).spec_save_path(),
    {
        match self.pets.get(pet_id.as_str()) {
            Some(p) => {
                let mut pet = p.clone();
                pet.x = x;
                pet.y = y;
                let ghost before = self.view();
                self.pets.insert(pet_id, pet);
                assert(self.view() =~= with_changed(before, pet_id@, |p: Pet| moved(p, x, y)));
            },
            None => {},
        }
    }

    /// Resizes the pet with the given id; an unknown id changes nothing.
    pub fn update_pet_size(&mut self, pet_id: String, width: u32, height: u32)
        ensures
            final(self).view() == with_changed(
                old(self).view(),
                pet_id@,
                |p: Pet| resized(p, width, height),
            ),
            final(self).spec_save_path() == old(self).spec_save_path(),
    {
        match self.pets.get(pet_id.as_str()) {
            Some(p) => {
                let mut pet = p.clone();
                pet.width = width;
                pet.height = height;
                let ghost before = self.view();
                self.pets.insert(pet_id, pet);
                assert(self.view() =~= with_changed(
                    before,
                    pet_id@,
                    |p: Pet| resized(p, width, height),
                ));
            },
            None => {},
        }
    }
}

} // verus!
