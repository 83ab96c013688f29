//! The metadata records a card is generated from, and the little formatting
//! that turns a track's artist list and an artist's genre tags into the
//! joined lines the card shows.

use vstd::prelude::*;

verus! {

/// A bearer token for the upstream metadata provider.
#[derive(Debug, Clone)]
pub struct AccessToken {
    pub access_token: String,
    pub token_type: String,
    pub expires_in: u32,
}

/// One artwork variant offered for an album.
#[derive(Debug, Clone)]
pub struct Image {
    pub url: String,
    pub height: u16,
    pub width: u16,
}

/// An album as the metadata provider describes it.
#[derive(Debug, Clone)]
pub struct Album {
    pub album_type: String,
    pub images: Vec<Image>,
    pub name: String,
}

/// An artist as the metadata provider describes it.
#[derive(Debug, Clone)]
pub struct Artist {
    pub id: String,
    pub name: String,
    pub genres: Option<Vec<String>>,
}

/// A track as the metadata provider describes it.
#[derive(Debug, Clone)]
pub struct Track {
    pub id: String,
    pub name: String,
    pub album: Album,
    pub artists: Vec<Artist>,
}

/// Everything the card pipeline needs about one track: the four text fields,
/// the album type, and the raw artwork with its nominal square size.
#[derive(Debug, Clone, PartialEq)]
pub struct CardData {
    pub track_id: String,
    pub name: String,
    pub album: String,
    pub album_type: String,
    pub artists: String,
    pub genres: String,
    pub jacket_size: u16,
    pub jacket_bytes: Vec<u8>,
}

/// The parts joined left to right with `sep` between neighbours.
pub open spec fn spec_join(parts: Seq<Seq<char>>, sep: Seq<char>) -> Seq<char>
    decreases parts.len(),
{
    if parts.len() == 0 {
        Seq::empty()
    } else if parts.len() == 1 {
        parts[0]
    } else {
        parts[0] + sep + spec_join(parts.drop_first(), sep)
    }
}

/// Extending a join by one more part appends one separator and that part.
proof fn lemma_join_step(parts: Seq<Seq<char>>, sep: Seq<char>, i: int)
    requires
        1 <= i < parts.len(),
    ensures
        spec_join(parts.take(i + 1), sep) == spec_join(parts.take(i), sep) + sep + parts[i],
    decreases i,
{
    if i == 1 {
        assert(parts.take(2).drop_first() =~= seq![parts[1]]);
        assert(parts.take(1) =~= seq![parts[0]]);
        assert(spec_join(seq![parts[1]], sep) == parts[1]);
        assert(parts.take(2)[0] == parts[0]);
        assert(spec_join(parts.take(2), sep) =~= parts[0] + sep + parts[1]);
    } else {
        lemma_join_step(parts.drop_first(), sep, i - 1);
        assert(parts.take(i + 1).drop_first() =~= parts.drop_first().take(i));
        assert(parts.take(i).drop_first() =~= parts.drop_first().take(i - 1));
        assert(parts.take(i + 1)[0] == parts[0]);
        assert(parts.drop_first()[i - 1] == parts[i]);
        assert(spec_join(parts.take(i + 1), sep) =~= spec_join(parts.take(i), sep) + sep
            + parts[i]);
    }
}

/// Joins the given strings with `sep`, left to right.
fn join_strings(parts: &Vec<String>, sep: &str) -> (r: String)
    ensures
        r@ == spec_join(parts@.map_values(|p: String| p@), sep@),
    decreases parts@.len(),
{
    let ghost views = parts@.map_values(|p: String| p@);
    let mut r = String::new();
    let n = parts.len();
    let mut i: usize = 0;
    while i < n
        invariant
            n == parts@.len(),
            i <= n,
            views == parts@.map_values(|p: String| p@),
            r@ == spec_join(views.take(i as int), sep@),
        decreases n - i,
    {
        if i > 0 {
            r.append(sep);
        }
        r.append(parts[i].as_str());
        proof {
            if i == 0 {
                assert(views.take(1) =~= seq![views[0]]);
            } else {
                lemma_join_step(views, sep@, i as int);
            }
        }
        i = i + 1;
    }
    proof {
        assert(views.take(n as int) =~= views);
    }
    r
}

impl Track {
    /// The track's artist names joined with a comma and a space, in the
    /// order the provider listed them.
    pub fn artists(&self) -> (r: String)
        ensures
            r@ == spec_join(self.artists@.map_values(|a: Artist| a.name@), ", "@),
    {
        let mut names: Vec<String> = Vec::new();
        let n = self.artists.len();
        let mut i: usize = 0;
        while i < n
            invariant
                n == self.artists@.len(),
                i <= n,
                names@.len() == i,
                forall|j: int| 0 <= j < i ==> names@[j]@ == self.artists@[j].name@,
            decreases n - i,
        {
            names.push(self.artists[i].name.clone());
            i = i + 1;
        }
        proof {
            assert(names@.map_values(|p: String| p@) =~= self.artists@.map_values(
                |a: Artist| a.name@,
            ));
        }
        join_strings(&names, ", ")
    }
}

impl Artist {
    /// The artist's genre tags, each prefixed with a hash sign, joined with
    /// single spaces; `None` when the provider listed no genre field.
    pub fn genres(&self) -> (r: Option<String>)
        ensures
            r is Some <==> self.genres is Some,
            r is Some ==> r.unwrap()@ == spec_join(
                self.genres.unwrap()@.map_values(|t: String| "#"@ + t@),
                " "@,
            ),
    {
        match &self.genres {
            None => None,
            Some(tags) => {
                let mut tagged: Vec<String> = Vec::new();
                let n = tags.len();
                let mut i: usize = 0;
                while i < n
                    invariant
                        n == tags@.len(),
                        i <= n,
                        tagged@.len() == i,
                        forall|j: int| 0 <= j < i ==> tagged@[j]@ == "#"@ + tags@[j]@,
                    decreases n - i,
                {
                    let mut line = String::new();
                    line.append("#");
                    line.append(tags[i].as_str());
                    tagged.push(line);
                    i = i + 1;
                }
                proof {
                    assert(tagged@.map_values(|p: String| p@) =~= tags@.map_values(
                        |t: String| "#"@ + t@,
                    ));
                }
                Some(join_strings(&tagged, " "))
            },
        }
    }
}

} // verus!
