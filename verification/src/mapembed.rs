//! The presentation model of one fetched map: which view is selected, the
//! entries of the selector menu, and the document shown for the selection.

use vstd::prelude::*;
use vstd::string::*;
use crate::embed::{
    embeds_view, fields_view, options_view, rows_view, ActionRow, ActionRowView, Colour,
    Embed, EmbedField, EmbedFieldView, EmbedView, LinkButton, LinkButtonView, SelectMenu,
    SelectMenuView, SelectOption, SelectOptionView,
};
use crate::error::MapError;
use crate::map::{BSMap, BSMapView, Characteristic, DifficultyLevel, MapDetail, MapDetailView};
use crate::text::{
    decimal, decimal_pad2, decimal_string, hundredths_text, push_decimal, push_decimal_pad2,
    push_hundredths, push_thousandths, same_text, thousandths_text,
};

verus! {

/// The token of the menu entry that stands for the map's overview.
pub open spec fn metadata_token() -> Seq<char> {
    "0"@
}

/// The label of the menu entry of a difficulty.
pub open spec fn option_label(c: Characteristic, d: DifficultyLevel) -> Seq<char> {
    d.name_spec() + " ("@ + c.name_spec() + ")"@
}

/// The token of the menu entry of a difficulty.
pub open spec fn option_token(c: Characteristic, d: DifficultyLevel) -> Seq<char> {
    c.name_spec() + d.name_spec()
}

/// The menu entries of a map whose first version has the difficulties
/// `diffs`, while view `selected` is shown: the overview first, then one entry
/// for each difficulty in the order of the map file. Entry `selected`, and no
/// other, is marked as the current choice.
pub open spec fn selector_options(diffs: Seq<MapDetailView>, selected: int) -> Seq<
    SelectOptionView,
> {
    Seq::new(
        diffs.len() + 1,
        |i: int|
            if i == 0 {
                SelectOptionView { label: "Metadata"@, value: metadata_token(), default: selected == 0 }
            } else {
                SelectOptionView {
                    label: option_label(diffs[i - 1].characteristic, diffs[i - 1].difficulty),
                    value: option_token(diffs[i - 1].characteristic, diffs[i - 1].difficulty),
                    default: selected == i,
                }
            },
    )
}

/// The first index at or after `from` of a difficulty whose entry carries
/// `token`; the number of difficulties if there is none.
pub open spec fn token_position(diffs: Seq<MapDetailView>, token: Seq<char>, from: int) -> int
    decreases diffs.len() - from,
{
    if from < 0 || from >= diffs.len() {
        diffs.len() as int
    } else if option_token(diffs[from].characteristic, diffs[from].difficulty) == token {
        from
    } else {
        token_position(diffs, token, from + 1)
    }
}

/// The view that a token selects: `0`, the overview, for the overview's token;
/// `k + 1` where difficulty `k` is the first whose entry carries the token;
/// `None` for a token that no entry carries.
pub open spec fn decode_token(diffs: Seq<MapDetailView>, token: Seq<char>) -> Option<int> {
    if token == metadata_token() {
        Some(0)
    } else if token_position(diffs, token, 0) < diffs.len() {
        Some(token_position(diffs, token, 0) + 1)
    } else {
        None
    }
}

/// The address of a map's page.
pub open spec fn map_link(id: Seq<char>) -> Seq<char> {
    "https://beatsaver.com/maps/"@ + id
}

/// The address under which a map can be previewed.
pub open spec fn preview_link(id: Seq<char>) -> Seq<char> {
    "https://allpoland.github.io/ArcViewer/?id="@ + id
}

/// The footer of a map's documents: the chat command that requests the map.
pub open spec fn footer_text(id: Seq<char>) -> Seq<char> {
    "!bsr "@ + id
}

/// A length of `duration` seconds as minutes, a colon, and the seconds left
/// over in two digits.
pub open spec fn length_text(duration: nat) -> Seq<char> {
    decimal(duration / 60) + ":"@ + decimal_pad2(duration % 60)
}

/// The votes on a map, with `score` in hundredths of a percent.
pub open spec fn rating_text(upvotes: nat, downvotes: nat, score: nat) -> Seq<char> {
    "▲ "@ + decimal(upvotes) + " / ▼ "@ + decimal(downvotes) + " ("@ + hundredths_text(score)
        + "%)"@
}

/// The accent colour of a map's overview: the first that applies of ranked on
/// either service, curated, uploaded by a verified mapper, none of these.
pub open spec fn embed_colour(map: BSMapView) -> Colour {
    if map.ss_ranked || map.bl_ranked {
        Colour { r: 243, g: 156, b: 18 }
    } else if map.curated {
        Colour { r: 0, g: 188, b: 140 }
    } else if map.uploader.verified_mapper {
        Colour { r: 118, g: 70, b: 175 }
    } else {
        Colour { r: 68, g: 68, b: 68 }
    }
}

/// The accent colour of a difficulty level.
pub open spec fn diff_colour(level: DifficultyLevel) -> Colour {
    match level {
        DifficultyLevel::ExpertPlus => Colour { r: 166, g: 149, b: 255 },
        DifficultyLevel::Expert => Colour { r: 255, g: 149, b: 166 },
        DifficultyLevel::Hard => Colour { r: 255, g: 183, b: 77 },
        DifficultyLevel::Normal => Colour { r: 0, g: 238, b: 255 },
        DifficultyLevel::Easy => Colour { r: 129, g: 199, b: 132 },
    }
}

/// The address of the picture of a characteristic.
pub open spec fn characteristic_thumbnail(c: Characteristic) -> Seq<char> {
    "https://raw.githubusercontent.com/mercurialworld/mafuyu/refs/heads/main/assets/"@
        + c.name_spec() + ".png"@
}

/// The fields of a map's overview.
pub open spec fn metadata_fields(map: BSMapView) -> Seq<EmbedFieldView> {
    seq![
        EmbedFieldView {
            name: "Mapper(s)"@,
            value: map.metadata.level_author_name,
            inline: false,
        },
        EmbedFieldView {
            name: "Artist(s)"@,
            value: map.metadata.song_author_name,
            inline: false,
        },
        EmbedFieldView { name: "BPM"@, value: thousandths_text(map.metadata.bpm), inline: true },
        EmbedFieldView {
            name: "Length"@,
            value: length_text(map.metadata.duration),
            inline: true,
        },
        EmbedFieldView {
            name: "Rating"@,
            value: rating_text(map.upvotes, map.downvotes, map.score),
            inline: true,
        },
    ]
}

/// The overview of a map.
pub open spec fn metadata_embed(map: BSMapView) -> EmbedView
    recommends
        map.versions.len() > 0,
{
    EmbedView {
        title: map.name,
        url: Some(map_link(map.id)),
        description: Some(map.description),
        thumbnail: Some(map.versions[0].cover_url),
        footer: Some(footer_text(map.id)),
        timestamp: Some(map.uploaded),
        fields: metadata_fields(map),
        colour: Some(embed_colour(map)),
    }
}

/// The field of a star rating, where the difficulty has one.
pub open spec fn star_fields(name: Seq<char>, stars: Option<nat>) -> Seq<EmbedFieldView> {
    match stars {
        Some(rating) => seq![
            EmbedFieldView { name: name, value: hundredths_text(rating), inline: true },
        ],
        None => Seq::<EmbedFieldView>::empty(),
    }
}

/// A field of the stat block that holds a count.
pub open spec fn count_field(name: Seq<char>, count: nat) -> EmbedFieldView {
    EmbedFieldView { name: name, value: decimal(count), inline: true }
}

/// The stat block of a difficulty.
pub open spec fn stat_fields(diff: MapDetailView) -> Seq<EmbedFieldView> {
    seq![
        EmbedFieldView {
            name: "Characteristic/Difficulty"@,
            value: diff.characteristic.name_spec() + " "@ + diff.difficulty.name_spec(),
            inline: false,
        },
    ] + star_fields("ScoreSaber Stars"@, diff.ss_stars) + star_fields(
        "BeatLeader Stars"@,
        diff.bl_stars,
    ) + seq![
        EmbedFieldView { name: ""@, value: ""@, inline: false },
        count_field("Notes"@, diff.notes),
        count_field("Bombs"@, diff.bombs),
        count_field("Walls"@, diff.obstacles),
        EmbedFieldView { name: "NJS"@, value: thousandths_text(diff.njs), inline: true },
        EmbedFieldView { name: "NPS"@, value: thousandths_text(diff.nps), inline: true },
        count_field("Lights"@, diff.events),
    ]
}

/// What a difficulty is called: the mapper's label where there is one, else
/// the name of its level.
pub open spec fn diff_caption(diff: MapDetailView) -> Seq<char> {
    match diff.label {
        Some(label) => label,
        None => diff.difficulty.name_spec(),
    }
}

/// The document of one difficulty of a map.
pub open spec fn diff_embed(map: BSMapView, diff: MapDetailView) -> EmbedView {
    EmbedView {
        title: map.name,
        url: Some(map_link(map.id)),
        description: Some(diff_caption(diff)),
        thumbnail: Some(characteristic_thumbnail(diff.characteristic)),
        footer: Some(footer_text(map.id)),
        timestamp: Some(map.uploaded),
        fields: stat_fields(diff),
        colour: Some(diff_colour(diff.difficulty)),
    }
}

/// The document shown while view `selected` of a map is chosen: the overview
/// for `0`, else difficulty `selected - 1` of the first version.
pub open spec fn document(map: BSMapView, selected: int) -> EmbedView
    recommends
        map.versions.len() > 0,
        0 <= selected <= map.versions[0].diffs.len(),
{
    if selected == 0 {
        metadata_embed(map)
    } else {
        diff_embed(map, map.versions[0].diffs[selected - 1])
    }
}

/// The rows under a map's message: the selector menu, then the buttons that
/// download and preview the map.
pub open spec fn components(map: BSMapView, selected: int) -> Seq<ActionRowView>
    recommends
        map.versions.len() > 0,
{
    seq![
        ActionRowView::SelectMenu(
            SelectMenuView {
                custom_id: "diffsel"@,
                placeholder: "Select Difficulty"@,
                options: selector_options(map.versions[0].diffs, selected),
            },
        ),
        ActionRowView::Buttons(
            seq![
                LinkButtonView {
                    url: map.versions[0].download_url,
                    label: "Download"@,
                    emoji: '⬇',
                },
                LinkButtonView { url: preview_link(map.id), label: "Preview"@, emoji: '⏯' },
            ],
        ),
    ]
}

/// `token_position` finds the first difficulty whose entry carries the token.
pub proof fn lemma_token_position_is_least(diffs: Seq<MapDetailView>, token: Seq<char>, from: int)
    requires
        0 <= from <= diffs.len(),
    ensures
        from <= token_position(diffs, token, from) <= diffs.len(),
        token_position(diffs, token, from) < diffs.len() ==> {
            let at = token_position(diffs, token, from);
            option_token(diffs[at].characteristic, diffs[at].difficulty) == token
        },
        forall|j: int|
            from <= j < token_position(diffs, token, from) ==> option_token(
                (#[trigger] diffs[j]).characteristic,
                diffs[j].difficulty,
            ) != token,
    decreases diffs.len() - from,
{
    if from < diffs.len() && option_token(diffs[from].characteristic, diffs[from].difficulty)
        != token {
        lemma_token_position_is_least(diffs, token, from + 1);
    }
}

/// A token names one characteristic and one level: entries with the same
/// token stand for difficulties of the same kind. No such token is the
/// overview's.
pub proof fn lemma_token_names_one_kind(
    c1: Characteristic,
    d1: DifficultyLevel,
    c2: Characteristic,
    d2: DifficultyLevel,
)
    ensures
        option_token(c1, d1) == option_token(c2, d2) ==> c1 == c2 && d1 == d2,
        option_token(c1, d1) != metadata_token(),
{
    reveal_strlit("Standard");
    reveal_strlit("OneSaber");
    reveal_strlit("NoArrows");
    reveal_strlit("90Degree");
    reveal_strlit("360Degree");
    reveal_strlit("Lightshow");
    reveal_strlit("Lawless");
    reveal_strlit("Legacy");
    reveal_strlit("Easy");
    reveal_strlit("Normal");
    reveal_strlit("Hard");
    reveal_strlit("Expert");
    reveal_strlit("ExpertPlus");
    reveal_strlit("0");
    let t1 = option_token(c1, d1);
    let t2 = option_token(c2, d2);
    let n1 = c1.name_spec();
    let n2 = c2.name_spec();
    assert(t1.len() == n1.len() + d1.name_spec().len());
    assert(t2.len() == n2.len() + d2.name_spec().len());
    assert(t1[0] == n1[0] && t1[1] == n1[1]);
    assert(t2[0] == n2[0] && t2[1] == n2[1]);
    if t1 == t2 {
        assert(c1 == c2);
        assert(d1.name_spec().len() == d2.name_spec().len());
        assert(t1[n1.len() as int] == d1.name_spec()[0]);
        assert(t2[n2.len() as int] == d2.name_spec()[0]);
        assert(d1 == d2);
    }
}

/// The menu entries of a map are the same whichever view is shown, but for
/// the mark of the current choice; and that mark stands on the entry of the
/// shown view and on no other.
pub proof fn lemma_options_differ_in_mark_only(diffs: Seq<MapDetailView>, a: int, b: int)
    ensures
        selector_options(diffs, a).len() == selector_options(diffs, b).len(),
        forall|i: int|
            0 <= i < selector_options(diffs, a).len() ==> {
                &&& (#[trigger] selector_options(diffs, a)[i]).label == selector_options(
                    diffs,
                    b,
                )[i].label
                &&& selector_options(diffs, a)[i].value == selector_options(diffs, b)[i].value
                &&& (selector_options(diffs, a)[i].default <==> i == a)
            },
{
}

/// Selecting by the token of any entry of the menu succeeds, and selects a
/// difficulty of the characteristic and level that the entry names: the
/// first such difficulty, which is the entry's own where no two difficulties
/// are of the same kind. The document then shown carries that level's colour
/// and names that characteristic and level.
pub proof fn lemma_own_token_selects(map: BSMapView, shown: int, k: int)
    requires
        map.versions.len() > 0,
        0 <= k <= map.versions[0].diffs.len(),
    ensures
        ({
            let diffs = map.versions[0].diffs;
            let found = decode_token(diffs, selector_options(diffs, shown)[k].value);
            &&& found is Some
            &&& 0 <= found->0 <= k
            &&& k == 0 ==> found->0 == 0 && document(map, found->0) == metadata_embed(map)
            &&& k > 0 ==> {
                &&& found->0 > 0
                &&& diffs[found->0 - 1].characteristic == diffs[k - 1].characteristic
                &&& diffs[found->0 - 1].difficulty == diffs[k - 1].difficulty
                &&& document(map, found->0).colour == Some(diff_colour(diffs[k - 1].difficulty))
                &&& document(map, found->0).fields[0].value == diffs[k
                    - 1].characteristic.name_spec() + " "@ + diffs[k - 1].difficulty.name_spec()
            }
            &&& (forall|i: int, j: int|
                0 <= i < j < diffs.len() ==> !((#[trigger] diffs[i]).characteristic == (
                #[trigger] diffs[j]).characteristic && diffs[i].difficulty == diffs[j].difficulty))
                ==> found->0 == k
        }),
{
    let diffs = map.versions[0].diffs;
    let token = selector_options(diffs, shown)[k].value;
    if k > 0 {
        let own = diffs[k - 1];
        assert(token == option_token(own.characteristic, own.difficulty));
        lemma_token_names_one_kind(
            own.characteristic,
            own.difficulty,
            own.characteristic,
            own.difficulty,
        );
        lemma_token_position_is_least(diffs, token, 0);
        let at = token_position(diffs, token, 0);
        assert(at <= k - 1);
        lemma_token_names_one_kind(
            diffs[at].characteristic,
            diffs[at].difficulty,
            own.characteristic,
            own.difficulty,
        );
    }
}

/// The menu entry of one difficulty.
fn diff_option(diff: &MapDetail, selected: bool) -> (option: SelectOption)
    ensures
        option@ == (SelectOptionView {
            label: option_label(diff.characteristic, diff.difficulty),
            value: option_token(diff.characteristic, diff.difficulty),
            default: selected,
        }),
{
    let mut label: String = String::from_str(diff.difficulty.name());
    label.append(" (");
    label.append(diff.characteristic.name());
    label.append(")");
    let mut value: String = String::from_str(diff.characteristic.name());
    value.append(diff.difficulty.name());
    SelectOption { label, value, default: selected }
}

/// The menu entries of a map with entry `selected_index` marked.
fn marked_options(map: &BSMap, selected_index: usize) -> (options: Vec<SelectOption>)
    requires
        map@.versions.len() > 0,
    ensures
        options_view(options@) == selector_options(map@.versions[0].diffs, selected_index as int),
{
    let mut options: Vec<SelectOption> = Vec::new();
    options.push(
        SelectOption {
            label: String::from_str("Metadata"),
            value: String::from_str("0"),
            default: selected_index == 0,
        },
    );
    let diffs: &Vec<MapDetail> = &map.versions[0].diffs;
    let ghost want = selector_options(map@.versions[0].diffs, selected_index as int);
    let mut i: usize = 0;
    while i < diffs.len()
        invariant
            i <= diffs.len(),
            diffs == map.versions@[0].diffs,
            map@.versions.len() > 0,
            want == selector_options(map@.versions[0].diffs, selected_index as int),
            options@.len() == i + 1,
            forall|j: int| 0 <= j < i + 1 ==> (#[trigger] options@[j])@ == want[j],
        decreases diffs.len() - i,
    {
        let option: SelectOption = diff_option(&diffs[i], i + 1 == selected_index);
        options.push(option);
        i += 1;
    }
    assert(options_view(options@) =~= want);
    options
}

/// The menu entries of a map, with the overview as the current choice.
pub fn get_map_diffs_list(map: &BSMap) -> (options: Vec<SelectOption>)
    requires
        map@.versions.len() > 0,
    ensures
        options_view(options@) == selector_options(map@.versions[0].diffs, 0),
{
    marked_options(map, 0)
}

/// The presentation state of one map: the map and the selected view.
///
/// The map always has a version, and the selected view always exists.
#[derive(Debug, PartialEq, Eq)]
pub struct MapEmbed {
    map: BSMap,
    /// `0` for the overview, `k + 1` for difficulty `k` of the first version.
    selected_index: usize,
}

/// What contracts say of a [`MapEmbed`].
pub struct MapEmbedView {
    pub map: BSMapView,
    /// `0` for the overview, `k + 1` for difficulty `k` of the first version.
    pub selected: int,
}

impl MapEmbedView {
    /// The difficulties that can be selected: those of the first version.
    pub open spec fn diffs(self) -> Seq<MapDetailView> {
        self.map.versions[0].diffs
    }
}

impl View for MapEmbed {
    type V = MapEmbedView;

    closed spec fn view(&self) -> MapEmbedView {
        MapEmbedView { map: self.map@, selected: self.selected_index as int }
    }
}

impl Clone for MapEmbed {
    fn clone(&self) -> (copy: Self)
        ensures
            copy@ == self@,
    {
        proof {
            use_type_invariant(self);
        }
        MapEmbed { map: self.map.clone(), selected_index: self.selected_index }
    }
}

impl MapEmbed {
    #[verifier::type_invariant]
    spec fn valid(&self) -> bool {
        &&& self.map@.versions.len() > 0
        &&& self.selected_index <= self.map@.versions[0].diffs.len()
    }

    /// The presentation of `map`, showing its overview.
    pub fn new(map: BSMap) -> (embed: MapEmbed)
        requires
            map@.versions.len() > 0,
        ensures
            embed@ == (MapEmbedView { map: map@, selected: 0 }),
            embed.map_spec() == map,
    {
        MapEmbed { map, selected_index: 0 }
    }

    /// The presented map itself.
    pub closed spec fn map_spec(&self) -> BSMap {
        self.map
    }

    /// The presented map. It has a version.
    pub fn map(&self) -> (map: &BSMap)
        ensures
            *map == self.map_spec(),
            map@ == self@.map,
            map@.versions.len() > 0,
    {
        proof {
            use_type_invariant(self);
        }
        &self.map
    }

    /// The selected view: `0` for the overview, `k + 1` for difficulty `k`
    /// of the first version. It is a view that the map has.
    pub fn selected_index(&self) -> (index: usize)
        ensures
            index == self@.selected,
            self@.map.versions.len() > 0,
            index <= self@.diffs().len(),
    {
        proof {
            use_type_invariant(self);
        }
        self.selected_index
    }

    /// The entries of the selector menu: the overview first, then the
    /// difficulties in the order of the map file, with the entry of the
    /// selected view, and no other, marked as the current choice.
    pub fn selector_options(&self) -> (options: Vec<SelectOption>)
        ensures
            options_view(options@) == selector_options(self@.diffs(), self@.selected),
    {
        proof {
            use_type_invariant(self);
        }
        marked_options(&self.map, self.selected_index)
    }

    /// The view that `token` selects, if an entry of the menu carries it.
    pub fn find_token(&self, token: &str) -> (found: Option<usize>)
        ensures
            match found {
                Some(k) => decode_token(self@.diffs(), token@) == Some(k as int) && k
                    <= self@.diffs().len(),
                None => decode_token(self@.diffs(), token@) is None,
            },
    {
        proof {
            use_type_invariant(self);
        }
        if same_text(token, "0") {
            return Some(0);
        }
        let diffs: &Vec<MapDetail> = &self.map.versions[0].diffs;
        let mut i: usize = 0;
        while i < diffs.len()
            invariant
                i <= diffs.len(),
                diffs == self.map.versions@[0].diffs,
                self.map@.versions.len() > 0,
                token@ != metadata_token(),
                token_position(self@.diffs(), token@, 0) == token_position(
                    self@.diffs(),
                    token@,
                    i as int,
                ),
            decreases diffs.len() - i,
        {
            let mut candidate: String = String::from_str(diffs[i].characteristic.name());
            candidate.append(diffs[i].difficulty.name());
            assert(self@.diffs()[i as int] == diffs@[i as int]@);
            if same_text(candidate.as_str(), token) {
                return Some(i + 1);
            }
            i += 1;
        }
        None
    }

    /// Selects the view that `new_index`, the token of a menu entry, stands
    /// for. A token that no entry carries is refused and changes nothing.
    pub fn set_index(&mut self, new_index: &str) -> (outcome: Result<(), MapError>)
        ensures
            final(self)@.map == old(self)@.map,
            final(self).map_spec() == old(self).map_spec(),
            match decode_token(old(self)@.diffs(), new_index@) {
                Some(k) => outcome is Ok && final(self)@.selected == k,
                None => outcome == Err::<(), MapError>(MapError::ContractViolation)
                    && *final(self) == *old(self),
            },
    {
        match self.find_token(new_index) {
            Some(k) => {
                proof {
                    use_type_invariant(&*self);
                }
                self.selected_index = k;
                Ok(())
            },
            None => Err(MapError::ContractViolation),
        }
    }

    /// The documents of the message: the one document of the selected view.
    pub fn build_embeds(&self) -> (embeds: Vec<Embed>)
        ensures
            embeds_view(embeds@) == seq![document(self@.map, self@.selected)],
    {
        proof {
            use_type_invariant(self);
        }
        let embed: Embed = if self.selected_index == 0 {
            self.create_map_metadata_embed()
        } else {
            self.create_map_diff_embed(&self.map.versions[0].diffs[self.selected_index - 1])
        };
        let mut embeds: Vec<Embed> = Vec::new();
        embeds.push(embed);
        assert(embeds_view(embeds@) =~= seq![document(self@.map, self@.selected)]);
        embeds
    }

    /// The rows under the message: the selector menu with the selected entry
    /// marked, and the download and preview buttons.
    pub fn build_embed_components(&mut self) -> (rows: Vec<ActionRow>)
        ensures
            *final(self) == *old(self),
            rows_view(rows@) == components(old(self)@.map, old(self)@.selected),
    {
        proof {
            use_type_invariant(&*self);
        }
        let menu: SelectMenu = SelectMenu {
            custom_id: String::from_str("diffsel"),
            placeholder: String::from_str("Select Difficulty"),
            options: self.selector_options(),
        };
        let mut preview: String = String::from_str("https://allpoland.github.io/ArcViewer/?id=");
        preview.append(self.map.id.as_str());
        let mut buttons: Vec<LinkButton> = Vec::new();
        buttons.push(
            LinkButton {
                url: self.map.versions[0].download_url.clone(),
                label: String::from_str("Download"),
                emoji: '⬇',
            },
        );
        buttons.push(LinkButton { url: preview, label: String::from_str("Preview"), emoji: '⏯' });
        let ghost want = components(self@.map, self@.selected);
        let menu_row: ActionRow = ActionRow::SelectMenu(menu);
        let button_row: ActionRow = ActionRow::Buttons(buttons);
        assert(menu_row@ == want[0]);
        assert(button_row@ == want[1]) by {
            assert(button_row@->Buttons_0 =~= want[1]->Buttons_0);
        }
        let mut rows: Vec<ActionRow> = Vec::new();
        rows.push(menu_row);
        rows.push(button_row);
        assert(rows_view(rows@) =~= want);
        rows
    }

    /// What every document of the map starts from: title, link, footer and
    /// time of upload.
    fn create_base_embed(&self) -> (embed: Embed)
        ensures
            embed@ == (EmbedView {
                title: self@.map.name,
                url: Some(map_link(self@.map.id)),
                description: None,
                thumbnail: None,
                footer: Some(footer_text(self@.map.id)),
                timestamp: Some(self@.map.uploaded),
                fields: Seq::<EmbedFieldView>::empty(),
                colour: None,
            }),
    {
        let mut url: String = String::from_str("https://beatsaver.com/maps/");
        url.append(self.map.id.as_str());
        let mut footer: String = String::from_str("!bsr ");
        footer.append(self.map.id.as_str());
        let embed: Embed = Embed {
            title: self.map.name.clone(),
            url: Some(url),
            description: None,
            thumbnail: None,
            footer: Some(footer),
            timestamp: Some(self.map.uploaded),
            fields: Vec::new(),
            colour: None,
        };
        assert(embed@.fields =~= Seq::<EmbedFieldView>::empty());
        embed
    }

    /// The overview of the map.
    pub fn create_map_metadata_embed(&self) -> (embed: Embed)
        ensures
            embed@ == metadata_embed(self@.map),
    {
        proof {
            use_type_invariant(self);
        }
        let mut embed: Embed = self.create_base_embed();
        embed.description = Some(self.map.description.clone());
        embed.thumbnail = Some(self.map.versions[0].cover_url.clone());

        let mut bpm: String = String::new();
        push_thousandths(&mut bpm, self.map.metadata.bpm);
        let length: String = length_string(self.map.metadata.duration);
        let rating: String = rating_string(
            self.map.stats.upvotes,
            self.map.stats.downvotes,
            self.map.stats.score,
        );

        let mut fields: Vec<EmbedField> = Vec::new();
        fields.push(EmbedField::new("Mapper(s)", self.map.metadata.level_author_name.clone(), false));
        fields.push(EmbedField::new("Artist(s)", self.map.metadata.song_author_name.clone(), false));
        fields.push(EmbedField::new("BPM", bpm, true));
        fields.push(EmbedField::new("Length", length, true));
        fields.push(EmbedField::new("Rating", rating, true));
        assert(fields_view(fields@) =~= metadata_fields(self@.map));
        embed.fields = fields;
        embed.colour = Some(self.get_embed_colour());
        embed
    }

    /// The document of one difficulty of the map.
    pub fn create_map_diff_embed(&self, diff: &MapDetail) -> (embed: Embed)
        ensures
            embed@ == diff_embed(self@.map, diff@),
    {
        let mut embed: Embed = self.create_base_embed();
        let caption: String = match &diff.label {
            Some(label) => label.clone(),
            None => String::from_str(diff.difficulty.name()),
        };
        embed.description = Some(caption);
        embed.thumbnail = Some(self.get_characteristic_thumbnail(&diff.characteristic));

        let mut kind: String = String::from_str(diff.characteristic.name());
        kind.append(" ");
        kind.append(diff.difficulty.name());

        let mut fields: Vec<EmbedField> = Vec::new();
        fields.push(EmbedField::new("Characteristic/Difficulty", kind, false));
        if let Some(scoresaber_stars) = diff.ss_stars {
            let mut stars: String = String::new();
            push_hundredths(&mut stars, scoresaber_stars as u64);
            fields.push(EmbedField::new("ScoreSaber Stars", stars, true));
        }
        if let Some(beatleader_stars) = diff.bl_stars {
            let mut stars: String = String::new();
            push_hundredths(&mut stars, beatleader_stars as u64);
            fields.push(EmbedField::new("BeatLeader Stars", stars, true));
        }
        let mut njs: String = String::new();
        push_thousandths(&mut njs, diff.njs);
        let mut nps: String = String::new();
        push_thousandths(&mut nps, diff.nps);
        fields.push(EmbedField::new("", String::new(), false));
        fields.push(EmbedField::new("Notes", decimal_string(diff.notes as u64), true));
        fields.push(EmbedField::new("Bombs", decimal_string(diff.bombs as u64), true));
        fields.push(EmbedField::new("Walls", decimal_string(diff.obstacles as u64), true));
        fields.push(EmbedField::new("NJS", njs, true));
        fields.push(EmbedField::new("NPS", nps, true));
        fields.push(EmbedField::new("Lights", decimal_string(diff.events as u64), true));
        proof {
            reveal_strlit("");
            assert(""@ =~= Seq::<char>::empty());
            assert(fields_view(fields@) =~= stat_fields(diff@));
        }
        embed.fields = fields;
        embed.colour = Some(self.get_diff_colour(diff.difficulty));
        embed
    }

    /// The accent colour of the map's overview.
    pub fn get_embed_colour(&self) -> (colour: Colour)
        ensures
            colour == embed_colour(self@.map),
    {
        if self.map.ss_ranked || self.map.bl_ranked {
            Colour::from_rgb(243, 156, 18)
        } else if self.map.curated_at.is_some() {
            Colour::from_rgb(0, 188, 140)
        } else if self.map.uploader.verified_mapper {
            Colour::from_rgb(118, 70, 175)
        } else {
            Colour::from_rgb(68, 68, 68)
        }
    }

    /// The accent colour of a difficulty level.
    pub fn get_diff_colour(&self, level: DifficultyLevel) -> (colour: Colour)
        ensures
            colour == diff_colour(level),
    {
        match level {
            DifficultyLevel::ExpertPlus => Colour::from_rgb(166, 149, 255),
            DifficultyLevel::Expert => Colour::from_rgb(255, 149, 166),
            DifficultyLevel::Hard => Colour::from_rgb(255, 183, 77),
            DifficultyLevel::Normal => Colour::from_rgb(0, 238, 255),
            DifficultyLevel::Easy => Colour::from_rgb(129, 199, 132),
        }
    }

    /// The address of the picture of a characteristic.
    pub fn get_characteristic_thumbnail(&self, characteristic: &Characteristic) -> (url: String)
        ensures
            url@ == characteristic_thumbnail(*characteristic),
    {
        let mut url: String = String::from_str(
            "https://raw.githubusercontent.com/mercurialworld/mafuyu/refs/heads/main/assets/",
        );
        url.append(characteristic.name());
        url.append(".png");
        url
    }
}

/// The text of a length of `duration` seconds.
pub fn length_string(duration: u32) -> (text: String)
    ensures
        text@ == length_text(duration as nat),
{
    let mut text: String = String::new();
    push_decimal(&mut text, (duration / 60) as u64);
    text.append(":");
    push_decimal_pad2(&mut text, (duration % 60) as u64);
    assert(text@ =~= length_text(duration as nat));
    text
}

/// The text of the votes on a map, with `score` in hundredths of a percent.
pub fn rating_string(upvotes: u32, downvotes: u32, score: u32) -> (text: String)
    ensures
        text@ == rating_text(upvotes as nat, downvotes as nat, score as nat),
{
    let mut text: String = String::from_str("▲ ");
    push_decimal(&mut text, upvotes as u64);
    text.append(" / ▼ ");
    push_decimal(&mut text, downvotes as u64);
    text.append(" (");
    push_hundredths(&mut text, score as u64);
    text.append("%)");
    text
}

} // verus!
