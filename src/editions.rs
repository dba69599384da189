//! The record type of each edition, the tagged union over them, and the
//! metadata that each of them declares.
use vstd::prelude::*;

use crate::model::{
    fields_view, lemma_variants_view_push, variants_view, EnumData, EnumView, Field, FieldView,
    ListFields, ObjectData, ObjectView, Variant, VariantView,
};
use crate::schema::{entries_view, flatten_root, flatten_shape, has_unique_keys};

verus! {

/// A field named `name` of declared type `ty`.
pub open spec fn field_spec(name: &str, ty: &str) -> FieldView {
    FieldView { name: name@, ty: ty@ }
}

fn field(name: &str, ty: &str) -> (r: Field)
    ensures
        r@ == field_spec(name, ty),
{
    Field { name: String::from_str(name), ty: String::from_str(ty) }
}

#[derive(Clone, Copy, Debug, PartialEq, Eq)]
pub enum MarioPartyCharacters {
    Mario,
    Luigi,
    Peach,
    Yoshi,
    Wario,
    DonkeyKong,
}

#[derive(Clone, Copy, Debug, PartialEq, Eq)]
pub enum MarioParty2Characters {
    Mario,
    Luigi,
    Peach,
    Yoshi,
    Wario,
    DonkeyKong,
}

#[derive(Clone, Copy, Debug, PartialEq, Eq)]
pub enum MarioParty3Characters {
    Mario,
    Luigi,
    Peach,
    Yoshi,
    Wario,
    DonkeyKong,
    Daisy,
    Waluigi,
}

#[derive(Clone, Copy, Debug, PartialEq, Eq)]
pub enum MarioParty4Characters {
    Mario,
    Luigi,
    Peach,
    Yoshi,
    Wario,
    DonkeyKong,
    Daisy,
    Waluigi,
}

#[derive(Clone, Copy, Debug, PartialEq, Eq)]
pub enum MarioParty5Characters {
    Mario,
    Luigi,
    Peach,
    Yoshi,
    Wario,
    Daisy,
    Waluigi,
    Toad,
    Boo,
    KoopaKid,
}

#[derive(Clone, Copy, Debug, PartialEq, Eq)]
pub enum MarioParty6Characters {
    Mario,
    Luigi,
    Peach,
    Yoshi,
    Wario,
    Daisy,
    Waluigi,
    Toad,
    Boo,
    KoopaKid,
    Toadette,
}

#[derive(Clone, Copy, Debug, PartialEq, Eq)]
pub enum MarioParty7Characters {
    Mario,
    Luigi,
    Peach,
    Yoshi,
    Wario,
    Daisy,
    Waluigi,
    Toad,
    Boo,
    Toadette,
    Birdo,
    DryBones,
}

#[derive(Clone, Copy, Debug, PartialEq, Eq)]
pub enum MarioParty8Characters {
    Mario,
    Luigi,
    Peach,
    Yoshi,
    Wario,
    Daisy,
    Waluigi,
    Toad,
    Boo,
    Toadette,
    Birdo,
    DryBones,
    Blooper,
    HammerBro,
}

#[derive(Clone, Copy, Debug, PartialEq, Eq)]
pub enum MarioParty9Characters {
    Mario,
    Luigi,
    Peach,
    Yoshi,
    Wario,
    Daisy,
    Waluigi,
    Toad,
    Birdo,
    Koopa,
    ShyGuy,
    Magikoopa,
}

#[derive(Clone, Copy, Debug, PartialEq, Eq)]
pub enum MarioParty10Characters {
    Mario,
    Luigi,
    Peach,
    Yoshi,
    Wario,
    Daisy,
    Waluigi,
    Toad,
    Toadette,
    DonkeyKong,
    Rosalina,
    Bowser,
    Spike,
}

#[derive(Clone, Copy, Debug, PartialEq, Eq)]
pub enum MarioPartyDSCharacters {
    Mario,
    Luigi,
    Peach,
    Yoshi,
    Wario,
    Daisy,
    Waluigi,
    Toad,
}

#[derive(Clone, Copy, Debug, PartialEq, Eq)]
pub enum MarioPartyIslandTourCharacters {
    Mario,
    Luigi,
    Peach,
    Yoshi,
    Wario,
    Daisy,
    Waluigi,
    Toad,
    Boo,
    BowserJr,
}

#[derive(Clone, Copy, Debug, PartialEq, Eq)]
pub enum MarioPartyStarRushCharacters {
    Mario,
    Luigi,
    Peach,
    Yoshi,
    Wario,
    Daisy,
    Waluigi,
    Toad,
    Toadette,
    Rosalina,
    DonkeyKong,
    DiddyKong,
}

#[derive(Clone, Copy, Debug, PartialEq, Eq)]
pub enum MarioPartyTop100Characters {
    Mario,
    Luigi,
    Peach,
    Yoshi,
    Wario,
    Daisy,
    Waluigi,
    Rosalina,
}

#[derive(Clone, Copy, Debug, PartialEq, Eq)]
pub enum SuperMarioPartyCharacters {
    Mario,
    Luigi,
    Peach,
    Yoshi,
    Wario,
    Daisy,
    Waluigi,
    Rosalina,
    Bowser,
    Goomba,
    ShyGuy,
    Koopa,
    MontyMole,
    BowserJr,
    Boo,
    HammerBro,
    DonkeyKong,
    DiddyKong,
    DryBones,
    PomPom,
}

#[derive(Clone, Copy, Debug, PartialEq, Eq)]
pub enum MarioPartySuperstarsCharacters {
    Mario,
    Luigi,
    Peach,
    Yoshi,
    Wario,
    Daisy,
    Waluigi,
    Rosalina,
    DonkeyKong,
    Birdo,
}

#[derive(Clone, Copy, Debug, PartialEq, Eq)]
pub enum MarioPartyJamboreeCharacters {
    Mario,
    Luigi,
    Peach,
    Yoshi,
    Wario,
    Daisy,
    Waluigi,
    Rosalina,
    Bowser,
    Goomba,
    ShyGuy,
    Koopa,
    MontyMole,
    BowserJr,
    Boo,
    Toad,
    Toadette,
    DonkeyKong,
    Birdo,
    Spike,
    Pauline,
    Ninji,
}

#[derive(Clone, Debug, PartialEq, Eq)]
pub struct MarioParty {
    pub player_name: String,
    pub character: MarioPartyCharacters,
    pub stars: i32,
    pub coins: i32,
    pub minigame_coins: i32,
    pub peak_coins: i32,
    pub blue_spaces: i32,
    pub red_spaces: i32,
    pub question_spaces: i32,
    pub minigame_spaces: i32,
    pub exclaimation_spaces: i32,
    pub mushroom_spaces: i32,
    pub bowser_spaces: i32,
}

impl ListFields for MarioParty {
    open spec fn declared_shape() -> ObjectView {
        ObjectView::FieldList(
            seq![
                field_spec("player_name", "String"),
                field_spec("character", "MarioPartyCharacters"),
                field_spec("stars", "i32"),
                field_spec("coins", "i32"),
                field_spec("minigame_coins", "i32"),
                field_spec("peak_coins", "i32"),
                field_spec("blue_spaces", "i32"),
                field_spec("red_spaces", "i32"),
                field_spec("question_spaces", "i32"),
                field_spec("minigame_spaces", "i32"),
                field_spec("exclaimation_spaces", "i32"),
                field_spec("mushroom_spaces", "i32"),
                field_spec("bowser_spaces", "i32"),
            ],
        )
    }

    fn list_fields() -> (r: ObjectData) {
        let v = vec![
            field("player_name", "String"),
            field("character", "MarioPartyCharacters"),
            field("stars", "i32"),
            field("coins", "i32"),
            field("minigame_coins", "i32"),
            field("peak_coins", "i32"),
            field("blue_spaces", "i32"),
            field("red_spaces", "i32"),
            field("question_spaces", "i32"),
            field("minigame_spaces", "i32"),
            field("exclaimation_spaces", "i32"),
            field("mushroom_spaces", "i32"),
            field("bowser_spaces", "i32"),
        ];
        assert(fields_view(v@) =~= seq![
            field_spec("player_name", "String"),
            field_spec("character", "MarioPartyCharacters"),
            field_spec("stars", "i32"),
            field_spec("coins", "i32"),
            field_spec("minigame_coins", "i32"),
            field_spec("peak_coins", "i32"),
            field_spec("blue_spaces", "i32"),
            field_spec("red_spaces", "i32"),
            field_spec("question_spaces", "i32"),
            field_spec("minigame_spaces", "i32"),
            field_spec("exclaimation_spaces", "i32"),
            field_spec("mushroom_spaces", "i32"),
            field_spec("bowser_spaces", "i32"),
        ]);
        ObjectData::FieldList(v)
    }
}

#[derive(Clone, Debug, PartialEq, Eq)]
pub struct MarioParty2 {
    pub player_name: String,
    pub character: MarioParty2Characters,
    pub stars: i32,
    pub coins: i32,
    pub minigame_coins: i32,
    pub peak_coins: i32,
    pub blue_spaces: i32,
    pub red_spaces: i32,
    pub question_spaces: i32,
    pub exclaimation_spaces: i32,
    pub bowser_spaces: i32,
    pub battle_spaces: i32,
    pub item_spaces: i32,
    pub bank_spaces: i32,
}

impl ListFields for MarioParty2 {
    open spec fn declared_shape() -> ObjectView {
        ObjectView::FieldList(
            seq![
                field_spec("player_name", "String"),
                field_spec("character", "MarioParty2Characters"),
                field_spec("stars", "i32"),
                field_spec("coins", "i32"),
                field_spec("minigame_coins", "i32"),
                field_spec("peak_coins", "i32"),
                field_spec("blue_spaces", "i32"),
                field_spec("red_spaces", "i32"),
                field_spec("question_spaces", "i32"),
                field_spec("exclaimation_spaces", "i32"),
                field_spec("bowser_spaces", "i32"),
                field_spec("battle_spaces", "i32"),
                field_spec("item_spaces", "i32"),
                field_spec("bank_spaces", "i32"),
            ],
        )
    }

    fn list_fields() -> (r: ObjectData) {
        let v = vec![
            field("player_name", "String"),
            field("character", "MarioParty2Characters"),
            field("stars", "i32"),
            field("coins", "i32"),
            field("minigame_coins", "i32"),
            field("peak_coins", "i32"),
            field("blue_spaces", "i32"),
            field("red_spaces", "i32"),
            field("question_spaces", "i32"),
            field("exclaimation_spaces", "i32"),
            field("bowser_spaces", "i32"),
            field("battle_spaces", "i32"),
            field("item_spaces", "i32"),
            field("bank_spaces", "i32"),
        ];
        assert(fields_view(v@) =~= seq![
            field_spec("player_name", "String"),
            field_spec("character", "MarioParty2Characters"),
            field_spec("stars", "i32"),
            field_spec("coins", "i32"),
            field_spec("minigame_coins", "i32"),
            field_spec("peak_coins", "i32"),
            field_spec("blue_spaces", "i32"),
            field_spec("red_spaces", "i32"),
            field_spec("question_spaces", "i32"),
            field_spec("exclaimation_spaces", "i32"),
            field_spec("bowser_spaces", "i32"),
            field_spec("battle_spaces", "i32"),
            field_spec("item_spaces", "i32"),
            field_spec("bank_spaces", "i32"),
        ]);
        ObjectData::FieldList(v)
    }
}

#[derive(Clone, Debug, PartialEq, Eq)]
pub struct MarioParty3 {
    pub player_name: String,
    pub character: MarioParty3Characters,
    pub stars: i32,
    pub coins: i32,
    pub minigame_coins: i32,
    pub peak_coins: i32,
    pub blue_spaces: i32,
    pub red_spaces: i32,
    pub question_spaces: i32,
    pub exclaimation_spaces: i32,
    pub bowser_spaces: i32,
    pub battle_spaces: i32,
    pub item_spaces: i32,
    pub bank_spaces: i32,
    pub game_guy_spaces: i32,
}

impl ListFields for MarioParty3 {
    open spec fn declared_shape() -> ObjectView {
        ObjectView::FieldList(
            seq![
                field_spec("player_name", "String"),
                field_spec("character", "MarioParty3Characters"),
                field_spec("stars", "i32"),
                field_spec("coins", "i32"),
                field_spec("minigame_coins", "i32"),
                field_spec("peak_coins", "i32"),
                field_spec("blue_spaces", "i32"),
                field_spec("red_spaces", "i32"),
                field_spec("question_spaces", "i32"),
                field_spec("exclaimation_spaces", "i32"),
                field_spec("bowser_spaces", "i32"),
                field_spec("battle_spaces", "i32"),
                field_spec("item_spaces", "i32"),
                field_spec("bank_spaces", "i32"),
                field_spec("game_guy_spaces", "i32"),
            ],
        )
    }

    fn list_fields() -> (r: ObjectData) {
        let v = vec![
            field("player_name", "String"),
            field("character", "MarioParty3Characters"),
            field("stars", "i32"),
            field("coins", "i32"),
            field("minigame_coins", "i32"),
            field("peak_coins", "i32"),
            field("blue_spaces", "i32"),
            field("red_spaces", "i32"),
            field("question_spaces", "i32"),
            field("exclaimation_spaces", "i32"),
            field("bowser_spaces", "i32"),
            field("battle_spaces", "i32"),
            field("item_spaces", "i32"),
            field("bank_spaces", "i32"),
            field("game_guy_spaces", "i32"),
        ];
        assert(fields_view(v@) =~= seq![
            field_spec("player_name", "String"),
            field_spec("character", "MarioParty3Characters"),
            field_spec("stars", "i32"),
            field_spec("coins", "i32"),
            field_spec("minigame_coins", "i32"),
            field_spec("peak_coins", "i32"),
            field_spec("blue_spaces", "i32"),
            field_spec("red_spaces", "i32"),
            field_spec("question_spaces", "i32"),
            field_spec("exclaimation_spaces", "i32"),
            field_spec("bowser_spaces", "i32"),
            field_spec("battle_spaces", "i32"),
            field_spec("item_spaces", "i32"),
            field_spec("bank_spaces", "i32"),
            field_spec("game_guy_spaces", "i32"),
        ]);
        ObjectData::FieldList(v)
    }
}

#[derive(Clone, Debug, PartialEq, Eq)]
pub struct MarioParty4 {
    pub player_name: String,
    pub character: MarioParty4Characters,
    pub stars: i32,
    pub coins: i32,
    pub minigame_coins: i32,
    pub peak_coins: i32,
    pub blue_spaces: i32,
    pub red_spaces: i32,
    pub happening_spaces: i32,
    pub fortune_spaces: i32,
    pub bowser_spaces: i32,
    pub battle_spaces: i32,
    pub mushroom_spaces: i32,
    pub warp_spaces: i32,
}

impl ListFields for MarioParty4 {
    open spec fn declared_shape() -> ObjectView {
        ObjectView::FieldList(
            seq![
                field_spec("player_name", "String"),
                field_spec("character", "MarioParty4Characters"),
                field_spec("stars", "i32"),
                field_spec("coins", "i32"),
                field_spec("minigame_coins", "i32"),
                field_spec("peak_coins", "i32"),
                field_spec("blue_spaces", "i32"),
                field_spec("red_spaces", "i32"),
                field_spec("happening_spaces", "i32"),
                field_spec("fortune_spaces", "i32"),
                field_spec("bowser_spaces", "i32"),
                field_spec("battle_spaces", "i32"),
                field_spec("mushroom_spaces", "i32"),
                field_spec("warp_spaces", "i32"),
            ],
        )
    }

    fn list_fields() -> (r: ObjectData) {
        let v = vec![
            field("player_name", "String"),
            field("character", "MarioParty4Characters"),
            field("stars", "i32"),
            field("coins", "i32"),
            field("minigame_coins", "i32"),
            field("peak_coins", "i32"),
            field("blue_spaces", "i32"),
            field("red_spaces", "i32"),
            field("happening_spaces", "i32"),
            field("fortune_spaces", "i32"),
            field("bowser_spaces", "i32"),
            field("battle_spaces", "i32"),
            field("mushroom_spaces", "i32"),
            field("warp_spaces", "i32"),
        ];
        assert(fields_view(v@) =~= seq![
            field_spec("player_name", "String"),
            field_spec("character", "MarioParty4Characters"),
            field_spec("stars", "i32"),
            field_spec("coins", "i32"),
            field_spec("minigame_coins", "i32"),
            field_spec("peak_coins", "i32"),
            field_spec("blue_spaces", "i32"),
            field_spec("red_spaces", "i32"),
            field_spec("happening_spaces", "i32"),
            field_spec("fortune_spaces", "i32"),
            field_spec("bowser_spaces", "i32"),
            field_spec("battle_spaces", "i32"),
            field_spec("mushroom_spaces", "i32"),
            field_spec("warp_spaces", "i32"),
        ]);
        ObjectData::FieldList(v)
    }
}

#[derive(Clone, Debug, PartialEq, Eq)]
pub struct MarioParty5 {
    pub player_name: String,
    pub character: MarioParty5Characters,
    pub stars: i32,
    pub coins: i32,
    pub minigame_coins: i32,
    pub peak_coins: i32,
    pub blue_spaces: i32,
    pub red_spaces: i32,
    pub capsule_spaces: i32,
    pub question_spaces: i32,
    pub bowser_spaces: i32,
    pub dk_spaces: i32,
}

impl ListFields for MarioParty5 {
    open spec fn declared_shape() -> ObjectView {
        ObjectView::FieldList(
            seq![
                field_spec("player_name", "String"),
                field_spec("character", "MarioParty5Characters"),
                field_spec("stars", "i32"),
                field_spec("coins", "i32"),
                field_spec("minigame_coins", "i32"),
                field_spec("peak_coins", "i32"),
                field_spec("blue_spaces", "i32"),
                field_spec("red_spaces", "i32"),
                field_spec("capsule_spaces", "i32"),
                field_spec("question_spaces", "i32"),
                field_spec("bowser_spaces", "i32"),
                field_spec("dk_spaces", "i32"),
            ],
        )
    }

    fn list_fields() -> (r: ObjectData) {
        let v = vec![
            field("player_name", "String"),
            field("character", "MarioParty5Characters"),
            field("stars", "i32"),
            field("coins", "i32"),
            field("minigame_coins", "i32"),
            field("peak_coins", "i32"),
            field("blue_spaces", "i32"),
            field("red_spaces", "i32"),
            field("capsule_spaces", "i32"),
            field("question_spaces", "i32"),
            field("bowser_spaces", "i32"),
            field("dk_spaces", "i32"),
        ];
        assert(fields_view(v@) =~= seq![
            field_spec("player_name", "String"),
            field_spec("character", "MarioParty5Characters"),
            field_spec("stars", "i32"),
            field_spec("coins", "i32"),
            field_spec("minigame_coins", "i32"),
            field_spec("peak_coins", "i32"),
            field_spec("blue_spaces", "i32"),
            field_spec("red_spaces", "i32"),
            field_spec("capsule_spaces", "i32"),
            field_spec("question_spaces", "i32"),
            field_spec("bowser_spaces", "i32"),
            field_spec("dk_spaces", "i32"),
        ]);
        ObjectData::FieldList(v)
    }
}

#[derive(Clone, Debug, PartialEq, Eq)]
pub struct MarioParty6 {
    pub player_name: String,
    pub character: MarioParty6Characters,
    pub stars: i32,
    pub coins: i32,
    pub minigame_coins: i32,
    pub orbs_used: i32,
    pub blue_spaces: i32,
    pub red_spaces: i32,
    pub character_spaces: i32,
    pub question_spaces: i32,
    pub duel_spaces: i32,
    pub miracle_spaces: i32,
    pub bowser_spaces: i32,
    pub dk_spaces: i32,
}

impl ListFields for MarioParty6 {
    open spec fn declared_shape() -> ObjectView {
        ObjectView::FieldList(
            seq![
                field_spec("player_name", "String"),
                field_spec("character", "MarioParty6Characters"),
                field_spec("stars", "i32"),
                field_spec("coins", "i32"),
                field_spec("minigame_coins", "i32"),
                field_spec("orbs_used", "i32"),
                field_spec("blue_spaces", "i32"),
                field_spec("red_spaces", "i32"),
                field_spec("character_spaces", "i32"),
                field_spec("question_spaces", "i32"),
                field_spec("duel_spaces", "i32"),
                field_spec("miracle_spaces", "i32"),
                field_spec("bowser_spaces", "i32"),
                field_spec("dk_spaces", "i32"),
            ],
        )
    }

    fn list_fields() -> (r: ObjectData) {
        let v = vec![
            field("player_name", "String"),
            field("character", "MarioParty6Characters"),
            field("stars", "i32"),
            field("coins", "i32"),
            field("minigame_coins", "i32"),
            field("orbs_used", "i32"),
            field("blue_spaces", "i32"),
            field("red_spaces", "i32"),
            field("character_spaces", "i32"),
            field("question_spaces", "i32"),
            field("duel_spaces", "i32"),
            field("miracle_spaces", "i32"),
            field("bowser_spaces", "i32"),
            field("dk_spaces", "i32"),
        ];
        assert(fields_view(v@) =~= seq![
            field_spec("player_name", "String"),
            field_spec("character", "MarioParty6Characters"),
            field_spec("stars", "i32"),
            field_spec("coins", "i32"),
            field_spec("minigame_coins", "i32"),
            field_spec("orbs_used", "i32"),
            field_spec("blue_spaces", "i32"),
            field_spec("red_spaces", "i32"),
            field_spec("character_spaces", "i32"),
            field_spec("question_spaces", "i32"),
            field_spec("duel_spaces", "i32"),
            field_spec("miracle_spaces", "i32"),
            field_spec("bowser_spaces", "i32"),
            field_spec("dk_spaces", "i32"),
        ]);
        ObjectData::FieldList(v)
    }
}

#[derive(Clone, Debug, PartialEq, Eq)]
pub struct MarioParty7 {
    pub player_name: String,
    pub character: MarioParty7Characters,
    pub stars: i32,
    pub coins: i32,
    pub minigame_coins: i32,
    pub coins_spent_on_orbs: i32,
    pub orbs_used: i32,
    pub spaces_moved: i32,
    pub blue_spaces: i32,
    pub red_spaces: i32,
    pub character_spaces: i32,
    pub green_spaces: i32,
    pub duel_spaces: i32,
    pub mic_spaces: i32,
    pub dk_spaces: i32,
    pub bowser_spaces: i32,
}

impl ListFields for MarioParty7 {
    open spec fn declared_shape() -> ObjectView {
        ObjectView::FieldList(
            seq![
                field_spec("player_name", "String"),
                field_spec("character", "MarioParty7Characters"),
                field_spec("stars", "i32"),
                field_spec("coins", "i32"),
                field_spec("minigame_coins", "i32"),
                field_spec("coins_spent_on_orbs", "i32"),
                field_spec("orbs_used", "i32"),
                field_spec("spaces_moved", "i32"),
                field_spec("blue_spaces", "i32"),
                field_spec("red_spaces", "i32"),
                field_spec("character_spaces", "i32"),
                field_spec("green_spaces", "i32"),
                field_spec("duel_spaces", "i32"),
                field_spec("mic_spaces", "i32"),
                field_spec("dk_spaces", "i32"),
                field_spec("bowser_spaces", "i32"),
            ],
        )
    }

    fn list_fields() -> (r: ObjectData) {
        let v = vec![
            field("player_name", "String"),
            field("character", "MarioParty7Characters"),
            field("stars", "i32"),
            field("coins", "i32"),
            field("minigame_coins", "i32"),
            field("coins_spent_on_orbs", "i32"),
            field("orbs_used", "i32"),
            field("spaces_moved", "i32"),
            field("blue_spaces", "i32"),
            field("red_spaces", "i32"),
            field("character_spaces", "i32"),
            field("green_spaces", "i32"),
            field("duel_spaces", "i32"),
            field("mic_spaces", "i32"),
            field("dk_spaces", "i32"),
            field("bowser_spaces", "i32"),
        ];
        assert(fields_view(v@) =~= seq![
            field_spec("player_name", "String"),
            field_spec("character", "MarioParty7Characters"),
            field_spec("stars", "i32"),
            field_spec("coins", "i32"),
            field_spec("minigame_coins", "i32"),
            field_spec("coins_spent_on_orbs", "i32"),
            field_spec("orbs_used", "i32"),
            field_spec("spaces_moved", "i32"),
            field_spec("blue_spaces", "i32"),
            field_spec("red_spaces", "i32"),
            field_spec("character_spaces", "i32"),
            field_spec("green_spaces", "i32"),
            field_spec("duel_spaces", "i32"),
            field_spec("mic_spaces", "i32"),
            field_spec("dk_spaces", "i32"),
            field_spec("bowser_spaces", "i32"),
        ]);
        ObjectData::FieldList(v)
    }
}

#[derive(Clone, Debug, PartialEq, Eq)]
pub struct MarioParty8 {
    pub player_name: String,
    pub character: MarioParty8Characters,
    pub stars: i32,
    pub coins: i32,
    pub minigame_coins: i32,
    pub coins_spent_in_shop: i32,
    pub candy_eaten: i32,
    pub spaces_moved: i32,
    pub blue_spaces: i32,
    pub red_spaces: i32,
    pub green_spaces: i32,
    pub lucky_spaces: i32,
    pub dk_spaces: i32,
    pub bowser_spaces: i32,
}

impl ListFields for MarioParty8 {
    open spec fn declared_shape() -> ObjectView {
        ObjectView::FieldList(
            seq![
                field_spec("player_name", "String"),
                field_spec("character", "MarioParty8Characters"),
                field_spec("stars", "i32"),
                field_spec("coins", "i32"),
                field_spec("minigame_coins", "i32"),
                field_spec("coins_spent_in_shop", "i32"),
                field_spec("candy_eaten", "i32"),
                field_spec("spaces_moved", "i32"),
                field_spec("blue_spaces", "i32"),
                field_spec("red_spaces", "i32"),
                field_spec("green_spaces", "i32"),
                field_spec("lucky_spaces", "i32"),
                field_spec("dk_spaces", "i32"),
                field_spec("bowser_spaces", "i32"),
            ],
        )
    }

    fn list_fields() -> (r: ObjectData) {
        let v = vec![
            field("player_name", "String"),
            field("character", "MarioParty8Characters"),
            field("stars", "i32"),
            field("coins", "i32"),
            field("minigame_coins", "i32"),
            field("coins_spent_in_shop", "i32"),
            field("candy_eaten", "i32"),
            field("spaces_moved", "i32"),
            field("blue_spaces", "i32"),
            field("red_spaces", "i32"),
            field("green_spaces", "i32"),
            field("lucky_spaces", "i32"),
            field("dk_spaces", "i32"),
            field("bowser_spaces", "i32"),
        ];
        assert(fields_view(v@) =~= seq![
            field_spec("player_name", "String"),
            field_spec("character", "MarioParty8Characters"),
            field_spec("stars", "i32"),
            field_spec("coins", "i32"),
            field_spec("minigame_coins", "i32"),
            field_spec("coins_spent_in_shop", "i32"),
            field_spec("candy_eaten", "i32"),
            field_spec("spaces_moved", "i32"),
            field_spec("blue_spaces", "i32"),
            field_spec("red_spaces", "i32"),
            field_spec("green_spaces", "i32"),
            field_spec("lucky_spaces", "i32"),
            field_spec("dk_spaces", "i32"),
            field_spec("bowser_spaces", "i32"),
        ]);
        ObjectData::FieldList(v)
    }
}

#[derive(Clone, Debug, PartialEq, Eq)]
pub struct MarioParty9 {
    pub player_name: String,
    pub character: MarioParty9Characters,
    pub mini_stars: i32,
    pub mini_stars_lost: i32,
    pub minigame_stars: i32,
    pub minigame_stars_lost: i32,
    pub event_mini_stars: i32,
    pub event_mini_stars_lost: i32,
    pub bonus_star_mini_stars: i32,
    pub dice_block_spaces: i32,
    pub lucky_spaces: i32,
    pub unlucky_spaces: i32,
    pub spin_spaces: i32,
    pub event_spaces: i32,
    pub shuffle_spaces: i32,
    pub bowser_spaces: i32,
    pub captain_event_spaces: i32,
    pub boss_battle_spaces: i32,
    pub dash_spaces: i32,
    pub back_spaces: i32,
    pub free_for_all_spaces: i32,
    pub one_v_three_spaces: i32,
    pub battle_spaces: i32,
    pub bowser_jr_spaces: i32,
}

impl ListFields for MarioParty9 {
    open spec fn declared_shape() -> ObjectView {
        ObjectView::FieldList(
            seq![
                field_spec("player_name", "String"),
                field_spec("character", "MarioParty9Characters"),
                field_spec("mini_stars", "i32"),
                field_spec("mini_stars_lost", "i32"),
                field_spec("minigame_stars", "i32"),
                field_spec("minigame_stars_lost", "i32"),
                field_spec("event_mini_stars", "i32"),
                field_spec("event_mini_stars_lost", "i32"),
                field_spec("bonus_star_mini_stars", "i32"),
                field_spec("dice_block_spaces", "i32"),
                field_spec("lucky_spaces", "i32"),
                field_spec("unlucky_spaces", "i32"),
                field_spec("spin_spaces", "i32"),
                field_spec("event_spaces", "i32"),
                field_spec("shuffle_spaces", "i32"),
                field_spec("bowser_spaces", "i32"),
                field_spec("captain_event_spaces", "i32"),
                field_spec("boss_battle_spaces", "i32"),
                field_spec("dash_spaces", "i32"),
                field_spec("back_spaces", "i32"),
                field_spec("free_for_all_spaces", "i32"),
                field_spec("one_v_three_spaces", "i32"),
                field_spec("battle_spaces", "i32"),
                field_spec("bowser_jr_spaces", "i32"),
            ],
        )
    }

    fn list_fields() -> (r: ObjectData) {
        let v = vec![
            field("player_name", "String"),
            field("character", "MarioParty9Characters"),
            field("mini_stars", "i32"),
            field("mini_stars_lost", "i32"),
            field("minigame_stars", "i32"),
            field("minigame_stars_lost", "i32"),
            field("event_mini_stars", "i32"),
            field("event_mini_stars_lost", "i32"),
            field("bonus_star_mini_stars", "i32"),
            field("dice_block_spaces", "i32"),
            field("lucky_spaces", "i32"),
            field("unlucky_spaces", "i32"),
            field("spin_spaces", "i32"),
            field("event_spaces", "i32"),
            field("shuffle_spaces", "i32"),
            field("bowser_spaces", "i32"),
            field("captain_event_spaces", "i32"),
            field("boss_battle_spaces", "i32"),
            field("dash_spaces", "i32"),
            field("back_spaces", "i32"),
            field("free_for_all_spaces", "i32"),
            field("one_v_three_spaces", "i32"),
            field("battle_spaces", "i32"),
            field("bowser_jr_spaces", "i32"),
        ];
        assert(fields_view(v@) =~= seq![
            field_spec("player_name", "String"),
            field_spec("character", "MarioParty9Characters"),
            field_spec("mini_stars", "i32"),
            field_spec("mini_stars_lost", "i32"),
            field_spec("minigame_stars", "i32"),
            field_spec("minigame_stars_lost", "i32"),
            field_spec("event_mini_stars", "i32"),
            field_spec("event_mini_stars_lost", "i32"),
            field_spec("bonus_star_mini_stars", "i32"),
            field_spec("dice_block_spaces", "i32"),
            field_spec("lucky_spaces", "i32"),
            field_spec("unlucky_spaces", "i32"),
            field_spec("spin_spaces", "i32"),
            field_spec("event_spaces", "i32"),
            field_spec("shuffle_spaces", "i32"),
            field_spec("bowser_spaces", "i32"),
            field_spec("captain_event_spaces", "i32"),
            field_spec("boss_battle_spaces", "i32"),
            field_spec("dash_spaces", "i32"),
            field_spec("back_spaces", "i32"),
            field_spec("free_for_all_spaces", "i32"),
            field_spec("one_v_three_spaces", "i32"),
            field_spec("battle_spaces", "i32"),
            field_spec("bowser_jr_spaces", "i32"),
        ]);
        ObjectData::FieldList(v)
    }
}

#[derive(Clone, Debug, PartialEq, Eq)]
pub struct MarioParty10 {
    pub player_name: String,
    pub character: MarioParty10Characters,
    pub mini_stars: i32,
}

impl ListFields for MarioParty10 {
    open spec fn declared_shape() -> ObjectView {
        ObjectView::FieldList(
            seq![
                field_spec("player_name", "String"),
                field_spec("character", "MarioParty10Characters"),
                field_spec("mini_stars", "i32"),
            ],
        )
    }

    fn list_fields() -> (r: ObjectData) {
        let v = vec![
            field("player_name", "String"),
            field("character", "MarioParty10Characters"),
            field("mini_stars", "i32"),
        ];
        assert(fields_view(v@) =~= seq![
            field_spec("player_name", "String"),
            field_spec("character", "MarioParty10Characters"),
            field_spec("mini_stars", "i32"),
        ]);
        ObjectData::FieldList(v)
    }
}

#[derive(Clone, Debug, PartialEq, Eq)]
pub struct MarioPartyDS {
    pub player_name: String,
    pub character: MarioPartyDSCharacters,
    pub stars: i32,
    pub coins: i32,
}

impl ListFields for MarioPartyDS {
    open spec fn declared_shape() -> ObjectView {
        ObjectView::FieldList(
            seq![
                field_spec("player_name", "String"),
                field_spec("character", "MarioPartyDSCharacters"),
                field_spec("stars", "i32"),
                field_spec("coins", "i32"),
            ],
        )
    }

    fn list_fields() -> (r: ObjectData) {
        let v = vec![
            field("player_name", "String"),
            field("character", "MarioPartyDSCharacters"),
            field("stars", "i32"),
            field("coins", "i32"),
        ];
        assert(fields_view(v@) =~= seq![
            field_spec("player_name", "String"),
            field_spec("character", "MarioPartyDSCharacters"),
            field_spec("stars", "i32"),
            field_spec("coins", "i32"),
        ]);
        ObjectData::FieldList(v)
    }
}

#[derive(Clone, Debug, PartialEq, Eq)]
pub struct MarioPartyIslandTour {
    pub player_name: String,
    pub character: MarioPartyIslandTourCharacters,
    pub green_spaces: i32,
    pub item_spaces: i32,
    pub dash_spaces: i32,
    pub blue_event_spaces: i32,
    pub piranha_plant_spaces: i32,
    pub red_event_spaces: i32,
    pub free_for_all_spaces: i32,
    pub bowser_spaces: i32,
    pub spaces_moved: i32,
}

impl ListFields for MarioPartyIslandTour {
    open spec fn declared_shape() -> ObjectView {
        ObjectView::FieldList(
            seq![
                field_spec("player_name", "String"),
                field_spec("character", "MarioPartyIslandTourCharacters"),
                field_spec("green_spaces", "i32"),
                field_spec("item_spaces", "i32"),
                field_spec("dash_spaces", "i32"),
                field_spec("blue_event_spaces", "i32"),
                field_spec("piranha_plant_spaces", "i32"),
                field_spec("red_event_spaces", "i32"),
                field_spec("free_for_all_spaces", "i32"),
                field_spec("bowser_spaces", "i32"),
                field_spec("spaces_moved", "i32"),
            ],
        )
    }

    fn list_fields() -> (r: ObjectData) {
        let v = vec![
            field("player_name", "String"),
            field("character", "MarioPartyIslandTourCharacters"),
            field("green_spaces", "i32"),
            field("item_spaces", "i32"),
            field("dash_spaces", "i32"),
            field("blue_event_spaces", "i32"),
            field("piranha_plant_spaces", "i32"),
            field("red_event_spaces", "i32"),
            field("free_for_all_spaces", "i32"),
            field("bowser_spaces", "i32"),
            field("spaces_moved", "i32"),
        ];
        assert(fields_view(v@) =~= seq![
            field_spec("player_name", "String"),
            field_spec("character", "MarioPartyIslandTourCharacters"),
            field_spec("green_spaces", "i32"),
            field_spec("item_spaces", "i32"),
            field_spec("dash_spaces", "i32"),
            field_spec("blue_event_spaces", "i32"),
            field_spec("piranha_plant_spaces", "i32"),
            field_spec("red_event_spaces", "i32"),
            field_spec("free_for_all_spaces", "i32"),
            field_spec("bowser_spaces", "i32"),
            field_spec("spaces_moved", "i32"),
        ]);
        ObjectData::FieldList(v)
    }
}

#[derive(Clone, Debug, PartialEq, Eq)]
pub struct MarioPartyStarRush {
    pub player_name: String,
    pub character: MarioPartyStarRushCharacters,
    pub stars: i32,
    pub coins: i32,
}

impl ListFields for MarioPartyStarRush {
    open spec fn declared_shape() -> ObjectView {
        ObjectView::FieldList(
            seq![
                field_spec("player_name", "String"),
                field_spec("character", "MarioPartyStarRushCharacters"),
                field_spec("stars", "i32"),
                field_spec("coins", "i32"),
            ],
        )
    }

    fn list_fields() -> (r: ObjectData) {
        let v = vec![
            field("player_name", "String"),
            field("character", "MarioPartyStarRushCharacters"),
            field("stars", "i32"),
            field("coins", "i32"),
        ];
        assert(fields_view(v@) =~= seq![
            field_spec("player_name", "String"),
            field_spec("character", "MarioPartyStarRushCharacters"),
            field_spec("stars", "i32"),
            field_spec("coins", "i32"),
        ]);
        ObjectData::FieldList(v)
    }
}

#[derive(Clone, Debug, PartialEq, Eq)]
pub struct MarioPartyTop100 {
    pub player_name: String,
    pub character: MarioPartyTop100Characters,
    pub stars: i32,
    pub coins: i32,
}

impl ListFields for MarioPartyTop100 {
    open spec fn declared_shape() -> ObjectView {
        ObjectView::FieldList(
            seq![
                field_spec("player_name", "String"),
                field_spec("character", "MarioPartyTop100Characters"),
                field_spec("stars", "i32"),
                field_spec("coins", "i32"),
            ],
        )
    }

    fn list_fields() -> (r: ObjectData) {
        let v = vec![
            field("player_name", "String"),
            field("character", "MarioPartyTop100Characters"),
            field("stars", "i32"),
            field("coins", "i32"),
        ];
        assert(fields_view(v@) =~= seq![
            field_spec("player_name", "String"),
            field_spec("character", "MarioPartyTop100Characters"),
            field_spec("stars", "i32"),
            field_spec("coins", "i32"),
        ]);
        ObjectData::FieldList(v)
    }
}

#[derive(Clone, Debug, PartialEq, Eq)]
pub struct SuperMarioParty {
    pub player_name: String,
    pub character: SuperMarioPartyCharacters,
    pub stars: i32,
    pub coins: i32,
    pub minigame_coins: i32,
    pub hidden_blocks: i32,
    pub items_used: i32,
    pub allies: i32,
    pub spaces_moved: i32,
    pub blue_spaces: i32,
    pub red_spaces: i32,
    pub lucky_spaces: i32,
    pub vs_spaces: i32,
    pub event_spaces: i32,
    pub item_spaces: i32,
    pub ally_spaces: i32,
    pub bad_luck_spaces: i32,
    pub extra_bad_luck_spaces: i32,
}

impl ListFields for SuperMarioParty {
    open spec fn declared_shape() -> ObjectView {
        ObjectView::FieldList(
            seq![
                field_spec("player_name", "String"),
                field_spec("character", "SuperMarioPartyCharacters"),
                field_spec("stars", "i32"),
                field_spec("coins", "i32"),
                field_spec("minigame_coins", "i32"),
                field_spec("hidden_blocks", "i32"),
                field_spec("items_used", "i32"),
                field_spec("allies", "i32"),
                field_spec("spaces_moved", "i32"),
                field_spec("blue_spaces", "i32"),
                field_spec("red_spaces", "i32"),
                field_spec("lucky_spaces", "i32"),
                field_spec("vs_spaces", "i32"),
                field_spec("event_spaces", "i32"),
                field_spec("item_spaces", "i32"),
                field_spec("ally_spaces", "i32"),
                field_spec("bad_luck_spaces", "i32"),
                field_spec("extra_bad_luck_spaces", "i32"),
            ],
        )
    }

    fn list_fields() -> (r: ObjectData) {
        let v = vec![
            field("player_name", "String"),
            field("character", "SuperMarioPartyCharacters"),
            field("stars", "i32"),
            field("coins", "i32"),
            field("minigame_coins", "i32"),
            field("hidden_blocks", "i32"),
            field("items_used", "i32"),
            field("allies", "i32"),
            field("spaces_moved", "i32"),
            field("blue_spaces", "i32"),
            field("red_spaces", "i32"),
            field("lucky_spaces", "i32"),
            field("vs_spaces", "i32"),
            field("event_spaces", "i32"),
            field("item_spaces", "i32"),
            field("ally_spaces", "i32"),
            field("bad_luck_spaces", "i32"),
            field("extra_bad_luck_spaces", "i32"),
        ];
        assert(fields_view(v@) =~= seq![
            field_spec("player_name", "String"),
            field_spec("character", "SuperMarioPartyCharacters"),
            field_spec("stars", "i32"),
            field_spec("coins", "i32"),
            field_spec("minigame_coins", "i32"),
            field_spec("hidden_blocks", "i32"),
            field_spec("items_used", "i32"),
            field_spec("allies", "i32"),
            field_spec("spaces_moved", "i32"),
            field_spec("blue_spaces", "i32"),
            field_spec("red_spaces", "i32"),
            field_spec("lucky_spaces", "i32"),
            field_spec("vs_spaces", "i32"),
            field_spec("event_spaces", "i32"),
            field_spec("item_spaces", "i32"),
            field_spec("ally_spaces", "i32"),
            field_spec("bad_luck_spaces", "i32"),
            field_spec("extra_bad_luck_spaces", "i32"),
        ]);
        ObjectData::FieldList(v)
    }
}

#[derive(Clone, Debug, PartialEq, Eq)]
pub struct MarioPartySuperstars {
    pub player_name: String,
    pub character: MarioPartySuperstarsCharacters,
    pub stars: i32,
    pub coins: i32,
    pub minigame_coins: i32,
    pub hidden_blocks: i32,
    pub items_bought: i32,
    pub items_used: i32,
    pub spaces_moved: i32,
    pub blue_spaces: i32,
    pub red_spaces: i32,
    pub item_spaces: i32,
    pub event_spaces: i32,
    pub chance_time_spaces: i32,
    pub lucky_spaces: i32,
    pub bowser_spaces: i32,
    pub vs_spaces: i32,
    pub koopa_bank_spaces: i32,
    pub stickers_used: i32,
}

impl ListFields for MarioPartySuperstars {
    open spec fn declared_shape() -> ObjectView {
        ObjectView::FieldList(
            seq![
                field_spec("player_name", "String"),
                field_spec("character", "MarioPartySuperstarsCharacters"),
                field_spec("stars", "i32"),
                field_spec("coins", "i32"),
                field_spec("minigame_coins", "i32"),
                field_spec("hidden_blocks", "i32"),
                field_spec("items_bought", "i32"),
                field_spec("items_used", "i32"),
                field_spec("spaces_moved", "i32"),
                field_spec("blue_spaces", "i32"),
                field_spec("red_spaces", "i32"),
                field_spec("item_spaces", "i32"),
                field_spec("event_spaces", "i32"),
                field_spec("chance_time_spaces", "i32"),
                field_spec("lucky_spaces", "i32"),
                field_spec("bowser_spaces", "i32"),
                field_spec("vs_spaces", "i32"),
                field_spec("koopa_bank_spaces", "i32"),
                field_spec("stickers_used", "i32"),
            ],
        )
    }

    fn list_fields() -> (r: ObjectData) {
        let v = vec![
            field("player_name", "String"),
            field("character", "MarioPartySuperstarsCharacters"),
            field("stars", "i32"),
            field("coins", "i32"),
            field("minigame_coins", "i32"),
            field("hidden_blocks", "i32"),
            field("items_bought", "i32"),
            field("items_used", "i32"),
            field("spaces_moved", "i32"),
            field("blue_spaces", "i32"),
            field("red_spaces", "i32"),
            field("item_spaces", "i32"),
            field("event_spaces", "i32"),
            field("chance_time_spaces", "i32"),
            field("lucky_spaces", "i32"),
            field("bowser_spaces", "i32"),
            field("vs_spaces", "i32"),
            field("koopa_bank_spaces", "i32"),
            field("stickers_used", "i32"),
        ];
        assert(fields_view(v@) =~= seq![
            field_spec("player_name", "String"),
            field_spec("character", "MarioPartySuperstarsCharacters"),
            field_spec("stars", "i32"),
            field_spec("coins", "i32"),
            field_spec("minigame_coins", "i32"),
            field_spec("hidden_blocks", "i32"),
            field_spec("items_bought", "i32"),
            field_spec("items_used", "i32"),
            field_spec("spaces_moved", "i32"),
            field_spec("blue_spaces", "i32"),
            field_spec("red_spaces", "i32"),
            field_spec("item_spaces", "i32"),
            field_spec("event_spaces", "i32"),
            field_spec("chance_time_spaces", "i32"),
            field_spec("lucky_spaces", "i32"),
            field_spec("bowser_spaces", "i32"),
            field_spec("vs_spaces", "i32"),
            field_spec("koopa_bank_spaces", "i32"),
            field_spec("stickers_used", "i32"),
        ]);
        ObjectData::FieldList(v)
    }
}

#[derive(Clone, Debug, PartialEq, Eq)]
pub struct MarioPartyJamboree {
    pub player_name: String,
    pub character: MarioPartyJamboreeCharacters,
    pub stars: i32,
    pub coins: i32,
    pub blue_spaces: i32,
    pub red_spaces: i32,
    pub lucky_spaces: i32,
    pub unlucky_spaces: i32,
    pub item_spaces: i32,
    pub bowser_spaces: i32,
    pub event_spaces: i32,
    pub chance_time_spaces: i32,
    pub vs_spaces: i32,
    pub coins_received: i32,
    pub minigames_won: i32,
    pub hidden_blocks_found: i32,
    pub showdown_minigames_won: i32,
    pub items_bought: i32,
    pub items_used: i32,
    pub spaces_traveled: i32,
    pub reactions_used: i32,
}

impl ListFields for MarioPartyJamboree {
    open spec fn declared_shape() -> ObjectView {
        ObjectView::FieldList(
            seq![
                field_spec("player_name", "String"),
                field_spec("character", "MarioPartyJamboreeCharacters"),
                field_spec("stars", "i32"),
                field_spec("coins", "i32"),
                field_spec("blue_spaces", "i32"),
                field_spec("red_spaces", "i32"),
                field_spec("lucky_spaces", "i32"),
                field_spec("unlucky_spaces", "i32"),
                field_spec("item_spaces", "i32"),
                field_spec("bowser_spaces", "i32"),
                field_spec("event_spaces", "i32"),
                field_spec("chance_time_spaces", "i32"),
                field_spec("vs_spaces", "i32"),
                field_spec("coins_received", "i32"),
                field_spec("minigames_won", "i32"),
                field_spec("hidden_blocks_found", "i32"),
                field_spec("showdown_minigames_won", "i32"),
                field_spec("items_bought", "i32"),
                field_spec("items_used", "i32"),
                field_spec("spaces_traveled", "i32"),
                field_spec("reactions_used", "i32"),
            ],
        )
    }

    fn list_fields() -> (r: ObjectData) {
        let v = vec![
            field("player_name", "String"),
            field("character", "MarioPartyJamboreeCharacters"),
            field("stars", "i32"),
            field("coins", "i32"),
            field("blue_spaces", "i32"),
            field("red_spaces", "i32"),
            field("lucky_spaces", "i32"),
            field("unlucky_spaces", "i32"),
            field("item_spaces", "i32"),
            field("bowser_spaces", "i32"),
            field("event_spaces", "i32"),
            field("chance_time_spaces", "i32"),
            field("vs_spaces", "i32"),
            field("coins_received", "i32"),
            field("minigames_won", "i32"),
            field("hidden_blocks_found", "i32"),
            field("showdown_minigames_won", "i32"),
            field("items_bought", "i32"),
            field("items_used", "i32"),
            field("spaces_traveled", "i32"),
            field("reactions_used", "i32"),
        ];
        assert(fields_view(v@) =~= seq![
            field_spec("player_name", "String"),
            field_spec("character", "MarioPartyJamboreeCharacters"),
            field_spec("stars", "i32"),
            field_spec("coins", "i32"),
            field_spec("blue_spaces", "i32"),
            field_spec("red_spaces", "i32"),
            field_spec("lucky_spaces", "i32"),
            field_spec("unlucky_spaces", "i32"),
            field_spec("item_spaces", "i32"),
            field_spec("bowser_spaces", "i32"),
            field_spec("event_spaces", "i32"),
            field_spec("chance_time_spaces", "i32"),
            field_spec("vs_spaces", "i32"),
            field_spec("coins_received", "i32"),
            field_spec("minigames_won", "i32"),
            field_spec("hidden_blocks_found", "i32"),
            field_spec("showdown_minigames_won", "i32"),
            field_spec("items_bought", "i32"),
            field_spec("items_used", "i32"),
            field_spec("spaces_traveled", "i32"),
            field_spec("reactions_used", "i32"),
        ]);
        ObjectData::FieldList(v)
    }
}

/// One game's players, as the records of its edition.
#[derive(Clone, Debug, PartialEq, Eq)]
pub enum MarioPartyData {
    MarioParty(Vec<MarioParty>),
    MarioParty2(Vec<MarioParty2>),
    MarioParty3(Vec<MarioParty3>),
    MarioParty4(Vec<MarioParty4>),
    MarioParty5(Vec<MarioParty5>),
    MarioParty6(Vec<MarioParty6>),
    MarioParty7(Vec<MarioParty7>),
    MarioParty8(Vec<MarioParty8>),
    MarioParty9(Vec<MarioParty9>),
    MarioParty10(Vec<MarioParty10>),
    MarioPartyDS(Vec<MarioPartyDS>),
    MarioPartyIslandTour(Vec<MarioPartyIslandTour>),
    MarioPartyStarRush(Vec<MarioPartyStarRush>),
    MarioPartyTop100(Vec<MarioPartyTop100>),
    SuperMarioParty(Vec<SuperMarioParty>),
    MarioPartySuperstars(Vec<MarioPartySuperstars>),
    MarioPartyJamboree(Vec<MarioPartyJamboree>),
}

/// Appends the arm `name` that wraps the type `ty`, whose metadata is `nested`.
fn push_arm(v: &mut Vec<Variant>, name: &str, ty: &str, nested: ObjectData)
    ensures
        variants_view(final(v)@) == variants_view(old(v)@).push(
            VariantView { name: name@, ty: ty@, nested: Some(nested@) },
        ),
{
    let arm = Variant { name: String::from_str(name), ty: String::from_str(ty), nested: Some(nested) };
    proof {
        lemma_variants_view_push(v@, arm);
    }
    v.push(arm);
}

impl ListFields for MarioPartyData {
    open spec fn declared_shape() -> ObjectView {
        ObjectView::EnumData(
            EnumView {
                name: "MarioPartyData"@,
                variants: seq![
                    VariantView {
                        name: "Mario Party"@,
                        ty: "MarioParty"@,
                        nested: Some(MarioParty::declared_shape()),
                    },
                    VariantView {
                        name: "Mario Party 2"@,
                        ty: "MarioParty2"@,
                        nested: Some(MarioParty2::declared_shape()),
                    },
                    VariantView {
                        name: "Mario Party 3"@,
                        ty: "MarioParty3"@,
                        nested: Some(MarioParty3::declared_shape()),
                    },
                    VariantView {
                        name: "Mario Party 4"@,
                        ty: "MarioParty4"@,
                        nested: Some(MarioParty4::declared_shape()),
                    },
                    VariantView {
                        name: "Mario Party 5"@,
                        ty: "MarioParty5"@,
                        nested: Some(MarioParty5::declared_shape()),
                    },
                    VariantView {
                        name: "Mario Party 6"@,
                        ty: "MarioParty6"@,
                        nested: Some(MarioParty6::declared_shape()),
                    },
                    VariantView {
                        name: "Mario Party 7"@,
                        ty: "MarioParty7"@,
                        nested: Some(MarioParty7::declared_shape()),
                    },
                    VariantView {
                        name: "Mario Party 8"@,
                        ty: "MarioParty8"@,
                        nested: Some(MarioParty8::declared_shape()),
                    },
                    VariantView {
                        name: "Mario Party 9"@,
                        ty: "MarioParty9"@,
                        nested: Some(MarioParty9::declared_shape()),
                    },
                    VariantView {
                        name: "Mario Party 10"@,
                        ty: "MarioParty10"@,
                        nested: Some(MarioParty10::declared_shape()),
                    },
                    VariantView {
                        name: "Mario Party DS"@,
                        ty: "MarioPartyDS"@,
                        nested: Some(MarioPartyDS::declared_shape()),
                    },
                    VariantView {
                        name: "Mario Party: Island Tour"@,
                        ty: "MarioPartyIslandTour"@,
                        nested: Some(MarioPartyIslandTour::declared_shape()),
                    },
                    VariantView {
                        name: "Mario Party: Star Rush"@,
                        ty: "MarioPartyStarRush"@,
                        nested: Some(MarioPartyStarRush::declared_shape()),
                    },
                    VariantView {
                        name: "Mario Party: The Top 100"@,
                        ty: "MarioPartyTop100"@,
                        nested: Some(MarioPartyTop100::declared_shape()),
                    },
                    VariantView {
                        name: "Super Mario Party"@,
                        ty: "SuperMarioParty"@,
                        nested: Some(SuperMarioParty::declared_shape()),
                    },
                    VariantView {
                        name: "Mario Party Superstars"@,
                        ty: "MarioPartySuperstars"@,
                        nested: Some(MarioPartySuperstars::declared_shape()),
                    },
                    VariantView {
                        name: "Mario Party Jamboree"@,
                        ty: "MarioPartyJamboree"@,
                        nested: Some(MarioPartyJamboree::declared_shape()),
                    },
                ],
            },
        )
    }

    fn list_fields() -> (r: ObjectData) {
        let mut v: Vec<Variant> = Vec::new();
        assert(variants_view(v@) =~= Seq::<VariantView>::empty());
        push_arm(&mut v, "Mario Party", "MarioParty", MarioParty::list_fields());
        push_arm(&mut v, "Mario Party 2", "MarioParty2", MarioParty2::list_fields());
        push_arm(&mut v, "Mario Party 3", "MarioParty3", MarioParty3::list_fields());
        push_arm(&mut v, "Mario Party 4", "MarioParty4", MarioParty4::list_fields());
        push_arm(&mut v, "Mario Party 5", "MarioParty5", MarioParty5::list_fields());
        push_arm(&mut v, "Mario Party 6", "MarioParty6", MarioParty6::list_fields());
        push_arm(&mut v, "Mario Party 7", "MarioParty7", MarioParty7::list_fields());
        push_arm(&mut v, "Mario Party 8", "MarioParty8", MarioParty8::list_fields());
        push_arm(&mut v, "Mario Party 9", "MarioParty9", MarioParty9::list_fields());
        push_arm(&mut v, "Mario Party 10", "MarioParty10", MarioParty10::list_fields());
        push_arm(&mut v, "Mario Party DS", "MarioPartyDS", MarioPartyDS::list_fields());
        push_arm(&mut v, "Mario Party: Island Tour", "MarioPartyIslandTour", MarioPartyIslandTour::list_fields());
        push_arm(&mut v, "Mario Party: Star Rush", "MarioPartyStarRush", MarioPartyStarRush::list_fields());
        push_arm(&mut v, "Mario Party: The Top 100", "MarioPartyTop100", MarioPartyTop100::list_fields());
        push_arm(&mut v, "Super Mario Party", "SuperMarioParty", SuperMarioParty::list_fields());
        push_arm(&mut v, "Mario Party Superstars", "MarioPartySuperstars", MarioPartySuperstars::list_fields());
        push_arm(&mut v, "Mario Party Jamboree", "MarioPartyJamboree", MarioPartyJamboree::list_fields());
        assert(variants_view(v@) =~= seq![
                VariantView {
                    name: "Mario Party"@,
                    ty: "MarioParty"@,
                    nested: Some(MarioParty::declared_shape()),
                },
                VariantView {
                    name: "Mario Party 2"@,
                    ty: "MarioParty2"@,
                    nested: Some(MarioParty2::declared_shape()),
                },
                VariantView {
                    name: "Mario Party 3"@,
                    ty: "MarioParty3"@,
                    nested: Some(MarioParty3::declared_shape()),
                },
                VariantView {
                    name: "Mario Party 4"@,
                    ty: "MarioParty4"@,
                    nested: Some(MarioParty4::declared_shape()),
                },
                VariantView {
                    name: "Mario Party 5"@,
                    ty: "MarioParty5"@,
                    nested: Some(MarioParty5::declared_shape()),
                },
                VariantView {
                    name: "Mario Party 6"@,
                    ty: "MarioParty6"@,
                    nested: Some(MarioParty6::declared_shape()),
                },
                VariantView {
                    name: "Mario Party 7"@,
                    ty: "MarioParty7"@,
                    nested: Some(MarioParty7::declared_shape()),
                },
                VariantView {
                    name: "Mario Party 8"@,
                    ty: "MarioParty8"@,
                    nested: Some(MarioParty8::declared_shape()),
                },
                VariantView {
                    name: "Mario Party 9"@,
                    ty: "MarioParty9"@,
                    nested: Some(MarioParty9::declared_shape()),
                },
                VariantView {
                    name: "Mario Party 10"@,
                    ty: "MarioParty10"@,
                    nested: Some(MarioParty10::declared_shape()),
                },
                VariantView {
                    name: "Mario Party DS"@,
                    ty: "MarioPartyDS"@,
                    nested: Some(MarioPartyDS::declared_shape()),
                },
                VariantView {
                    name: "Mario Party: Island Tour"@,
                    ty: "MarioPartyIslandTour"@,
                    nested: Some(MarioPartyIslandTour::declared_shape()),
                },
                VariantView {
                    name: "Mario Party: Star Rush"@,
                    ty: "MarioPartyStarRush"@,
                    nested: Some(MarioPartyStarRush::declared_shape()),
                },
                VariantView {
                    name: "Mario Party: The Top 100"@,
                    ty: "MarioPartyTop100"@,
                    nested: Some(MarioPartyTop100::declared_shape()),
                },
                VariantView {
                    name: "Super Mario Party"@,
                    ty: "SuperMarioParty"@,
                    nested: Some(SuperMarioParty::declared_shape()),
                },
                VariantView {
                    name: "Mario Party Superstars"@,
                    ty: "MarioPartySuperstars"@,
                    nested: Some(MarioPartySuperstars::declared_shape()),
                },
                VariantView {
                    name: "Mario Party Jamboree"@,
                    ty: "MarioPartyJamboree"@,
                    nested: Some(MarioPartyJamboree::declared_shape()),
                },
        ]);
        ObjectData::EnumData(EnumData { name: String::from_str("MarioPartyData"), variants: v })
    }
}

/// The input schema: for each edition, its label and the fields of its
/// record, in the order the editions are declared.
pub fn get_input_schema() -> (r: Vec<(String, Vec<Field>)>)
    ensures
        entries_view(r@) == flatten_shape(MarioPartyData::declared_shape()),
        has_unique_keys(entries_view(r@)),
{
    let data = MarioPartyData::list_fields();
    flatten_root(&data)
}

} // verus!
