//! The quality ladder: the closed set of target heights with their bitrate
//! budgets, the choice of a rung for a source height, and the names of the rungs.

use crate::text::str_eq;
use vstd::prelude::*;
use vstd::string::*;

verus! {

/// A target quality. `Original` stands for the source stream passed through
/// untouched; it has no height or bitrate of its own.
#[derive(PartialEq, Eq, Structural, Clone, Copy, Debug)]
pub enum Quality {
    P240,
    P360,
    P480,
    P720,
    P1080,
    P1440,
    P4k,
    P8k,
    Original,
}

/// The error of [`Quality::from_str`]: the text names no quality.
#[derive(PartialEq, Eq, Structural, Clone, Copy, Debug)]
pub struct InvalidValueError;

impl Quality {
    /// The transcoding targets in ascending order of height. `Original` is not one.
    pub open spec fn ladder() -> Seq<Quality> {
        seq![
            Quality::P240,
            Quality::P360,
            Quality::P480,
            Quality::P720,
            Quality::P1080,
            Quality::P1440,
            Quality::P4k,
            Quality::P8k,
        ]
    }

    /// The height of a target in lines; 0 for `Original`, which has none.
    pub open spec fn spec_height(self) -> nat {
        match self {
            Quality::P240 => 240,
            Quality::P360 => 360,
            Quality::P480 => 480,
            Quality::P720 => 720,
            Quality::P1080 => 1080,
            Quality::P1440 => 1440,
            Quality::P4k => 2160,
            Quality::P8k => 4320,
            Quality::Original => 0,
        }
    }

    /// The average bitrate budget of a target in bytes per second; 0 for `Original`.
    pub open spec fn spec_average_bitrate(self) -> nat {
        match self {
            Quality::P240 => 400_000,
            Quality::P360 => 800_000,
            Quality::P480 => 1_200_000,
            Quality::P720 => 2_400_000,
            Quality::P1080 => 4_800_000,
            Quality::P1440 => 9_600_000,
            Quality::P4k => 16_000_000,
            Quality::P8k => 28_000_000,
            Quality::Original => 0,
        }
    }

    /// The peak bitrate budget of a target in bytes per second; 0 for `Original`.
    pub open spec fn spec_max_bitrate(self) -> nat {
        match self {
            Quality::P240 => 700_000,
            Quality::P360 => 1_400_000,
            Quality::P480 => 2_100_000,
            Quality::P720 => 4_000_000,
            Quality::P1080 => 8_000_000,
            Quality::P1440 => 12_000_000,
            Quality::P4k => 28_000_000,
            Quality::P8k => 40_000_000,
            Quality::Original => 0,
        }
    }

    /// The lowest rung that is at least `height` lines high; `P240` where the
    /// ladder has none.
    pub open spec fn spec_from_height(height: nat) -> Quality {
        if height <= 240 {
            Quality::P240
        } else if height <= 360 {
            Quality::P360
        } else if height <= 480 {
            Quality::P480
        } else if height <= 720 {
            Quality::P720
        } else if height <= 1080 {
            Quality::P1080
        } else if height <= 1440 {
            Quality::P1440
        } else if height <= 2160 {
            Quality::P4k
        } else if height <= 4320 {
            Quality::P8k
        } else {
            Quality::P240
        }
    }

    /// The name of a quality, as it stands in URLs and playlists.
    pub open spec fn name(self) -> Seq<char> {
        match self {
            Quality::P240 => "240p"@,
            Quality::P360 => "360p"@,
            Quality::P480 => "480p"@,
            Quality::P720 => "720p"@,
            Quality::P1080 => "1080p"@,
            Quality::P1440 => "1440p"@,
            Quality::P4k => "4k"@,
            Quality::P8k => "8k"@,
            Quality::Original => "original"@,
        }
    }

    /// The quality that `s` names, if it names one. Only the nine names are
    /// accepted, letter for letter.
    pub open spec fn named(s: Seq<char>) -> Option<Quality> {
        if s == "240p"@ {
            Some(Quality::P240)
        } else if s == "360p"@ {
            Some(Quality::P360)
        } else if s == "480p"@ {
            Some(Quality::P480)
        } else if s == "720p"@ {
            Some(Quality::P720)
        } else if s == "1080p"@ {
            Some(Quality::P1080)
        } else if s == "1440p"@ {
            Some(Quality::P1440)
        } else if s == "4k"@ {
            Some(Quality::P4k)
        } else if s == "8k"@ {
            Some(Quality::P8k)
        } else if s == "original"@ {
            Some(Quality::Original)
        } else {
            None
        }
    }

    /// The transcoding targets in ascending order of height, without `Original`.
    pub fn iter() -> (all: Vec<Quality>)
        ensures
            all@ == Quality::ladder(),
    {
        let mut all: Vec<Quality> = Vec::new();
        all.push(Quality::P240);
        all.push(Quality::P360);
        all.push(Quality::P480);
        all.push(Quality::P720);
        all.push(Quality::P1080);
        all.push(Quality::P1440);
        all.push(Quality::P4k);
        all.push(Quality::P8k);
        assert(all@ == Quality::ladder());
        all
    }

    /// The height of a target in lines.
    pub fn height(&self) -> (h: u32)
        requires
            *self != Quality::Original,
        ensures
            h == self.spec_height(),
    {
        match self {
            Quality::P240 => 240,
            Quality::P360 => 360,
            Quality::P480 => 480,
            Quality::P720 => 720,
            Quality::P1080 => 1080,
            Quality::P1440 => 1440,
            Quality::P4k => 2160,
            _ => 4320,
        }
    }

    /// The average bitrate budget of a target in bytes per second.
    pub fn average_bitrate(&self) -> (rate: u32)
        requires
            *self != Quality::Original,
        ensures
            rate == self.spec_average_bitrate(),
    {
        match self {
            Quality::P240 => 400_000,
            Quality::P360 => 800_000,
            Quality::P480 => 1_200_000,
            Quality::P720 => 2_400_000,
            Quality::P1080 => 4_800_000,
            Quality::P1440 => 9_600_000,
            Quality::P4k => 16_000_000,
            _ => 28_000_000,
        }
    }

    /// The peak bitrate budget of a target in bytes per second.
    pub fn max_bitrate(&self) -> (rate: u32)
        requires
            *self != Quality::Original,
        ensures
            rate == self.spec_max_bitrate(),
    {
        match self {
            Quality::P240 => 700_000,
            Quality::P360 => 1_400_000,
            Quality::P480 => 2_100_000,
            Quality::P720 => 4_000_000,
            Quality::P1080 => 8_000_000,
            Quality::P1440 => 12_000_000,
            Quality::P4k => 28_000_000,
            _ => 40_000_000,
        }
    }

    /// The lowest rung that is at least `height` lines high, so that a source is
    /// never assigned a rung below its own height; `P240` where no rung is that high.
    pub fn from_height(height: u32) -> (q: Quality)
        ensures
            q == Quality::spec_from_height(height as nat),
    {
        let all = Quality::iter();
        let mut i: usize = 0;
        while i < all.len()
            invariant
                all@ == Quality::ladder(),
                i <= all.len(),
                forall|j: int| 0 <= j < i ==> Quality::ladder()[j].spec_height() < height,
            decreases all.len() - i,
        {
            let q = all[i];
            if q.height() >= height {
                return q;
            }
            i += 1;
        }
        assert(Quality::ladder()[7].spec_height() < height);
        Quality::P240
    }

    /// Reads the name of a quality. Only the nine names are accepted.
    pub fn from_str(s: &str) -> (r: Result<Quality, InvalidValueError>)
        ensures
            r == match Quality::named(s@) {
                Some(q) => Ok::<Quality, InvalidValueError>(q),
                None => Err(InvalidValueError),
            },
    {
        if str_eq(s, "240p") {
            Ok(Quality::P240)
        } else if str_eq(s, "360p") {
            Ok(Quality::P360)
        } else if str_eq(s, "480p") {
            Ok(Quality::P480)
        } else if str_eq(s, "720p") {
            Ok(Quality::P720)
        } else if str_eq(s, "1080p") {
            Ok(Quality::P1080)
        } else if str_eq(s, "1440p") {
            Ok(Quality::P1440)
        } else if str_eq(s, "4k") {
            Ok(Quality::P4k)
        } else if str_eq(s, "8k") {
            Ok(Quality::P8k)
        } else if str_eq(s, "original") {
            Ok(Quality::Original)
        } else {
            Err(InvalidValueError)
        }
    }

    /// The name of the quality as a static text.
    pub fn as_str(&self) -> (s: &'static str)
        ensures
            s@ == self.name(),
    {
        match self {
            Quality::P240 => "240p",
            Quality::P360 => "360p",
            Quality::P480 => "480p",
            Quality::P720 => "720p",
            Quality::P1080 => "1080p",
            Quality::P1440 => "1440p",
            Quality::P4k => "4k",
            Quality::P8k => "8k",
            Quality::Original => "original",
        }
    }

    /// The name of the quality.
    pub fn to_string(&self) -> (s: String)
        ensures
            s@ == self.name(),
    {
        self.as_str().to_owned()
    }

    /// Every quality is read back from its own name, `Original` too.
    pub proof fn lemma_name_round_trip(q: Quality)
        ensures
            Quality::named(q.name()) == Some(q),
    {
        reveal_strlit("240p");
        reveal_strlit("360p");
        reveal_strlit("480p");
        reveal_strlit("720p");
        reveal_strlit("1080p");
        reveal_strlit("1440p");
        reveal_strlit("4k");
        reveal_strlit("8k");
        reveal_strlit("original");
        assert("240p"@.len() == 4 && "240p"@[0] == '2');
        assert("360p"@.len() == 4 && "360p"@[0] == '3');
        assert("480p"@.len() == 4 && "480p"@[0] == '4');
        assert("720p"@.len() == 4 && "720p"@[0] == '7');
        assert("1080p"@.len() == 5 && "1080p"@[1] == '0');
        assert("1440p"@.len() == 5 && "1440p"@[1] == '4');
        assert("4k"@.len() == 2 && "4k"@[0] == '4');
        assert("8k"@.len() == 2 && "8k"@[0] == '8');
        assert("original"@.len() == 8);
    }

    /// A text that is none of the nine names is refused; `invalid` is such a text.
    pub proof fn lemma_unnamed_is_refused()
        ensures
            Quality::named("invalid"@) is None,
    {
        reveal_strlit("invalid");
        reveal_strlit("240p");
        reveal_strlit("360p");
        reveal_strlit("480p");
        reveal_strlit("720p");
        reveal_strlit("1080p");
        reveal_strlit("1440p");
        reveal_strlit("4k");
        reveal_strlit("8k");
        reveal_strlit("original");
        assert("invalid"@.len() == 7);
        assert("240p"@.len() == 4);
        assert("360p"@.len() == 4);
        assert("480p"@.len() == 4);
        assert("720p"@.len() == 4);
        assert("1080p"@.len() == 5);
        assert("1440p"@.len() == 5);
        assert("4k"@.len() == 2);
        assert("8k"@.len() == 2);
        assert("original"@.len() == 8);
    }

    /// The rung chosen for a height that the ladder reaches is at least that
    /// high, and no lower rung is. Heights above the top rung fall back to `P240`.
    pub proof fn lemma_from_height_is_lowest_fit(height: nat)
        ensures
            Quality::spec_from_height(height) != Quality::Original,
            height <= 4320 ==> Quality::spec_from_height(height).spec_height() >= height,
            height <= 4320 ==> forall|i: int|
                0 <= i < Quality::ladder().len() && #[trigger] Quality::ladder()[i].spec_height()
                    >= height ==> Quality::spec_from_height(height).spec_height()
                    <= Quality::ladder()[i].spec_height(),
            height > 4320 ==> Quality::spec_from_height(height) == Quality::P240,
            height == 0 ==> Quality::spec_from_height(height) == Quality::P240,
    {
    }

    /// The ladder ascends strictly, and `Original` is not on it.
    pub proof fn lemma_ladder_ascends()
        ensures
            forall|i: int, j: int|
                0 <= i < j < Quality::ladder().len() ==> #[trigger] Quality::ladder()[i].spec_height()
                    < #[trigger] Quality::ladder()[j].spec_height(),
            forall|i: int|
                0 <= i < Quality::ladder().len() ==> #[trigger] Quality::ladder()[i]
                    != Quality::Original,
    {
    }
}

} // verus!
