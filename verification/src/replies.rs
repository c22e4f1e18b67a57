//! What the replies of the X server become: the screens of the randr outputs and the
//! values of window properties.
use crate::data_types::{crtc_region, CrtcInfo, Screen};
use crate::text::{decimal, push_decimal, string_from_utf8, utf8_error_message};
use vstd::prelude::*;
use vstd::string::StringExecFns;
use vstd::utf8::{decode_utf8, valid_utf8};

verus! {

/// The CRTCs whose info could be read, in the order in which they were queried.
pub open spec fn found_crtcs(infos: Seq<Option<CrtcInfo>>) -> Seq<CrtcInfo>
    decreases infos.len(),
{
    if infos.len() == 0 {
        Seq::empty()
    } else {
        let rest = found_crtcs(infos.drop_last());
        match infos.last() {
            Some(c) => rest.push(c),
            None => rest,
        }
    }
}

/// The screens shown by `crtcs`, each numbered by its position.
pub open spec fn numbered_screens(crtcs: Seq<CrtcInfo>) -> Seq<Screen> {
    Seq::new(
        crtcs.len(),
        |i: int|
            Screen {
                true_region: crtc_region(crtcs[i]),
                effective_region: crtc_region(crtcs[i]),
                wix: i as usize,
            },
    )
}

/// A screen is in use when it has a width.
pub open spec fn is_active_screen(s: Screen) -> bool {
    s.true_region.w > 0
}

/// The screens of the current outputs: the CRTCs whose info could be read are numbered
/// in order, and the ones that show nothing (of width 0) are then left out.
pub open spec fn output_screens(infos: Seq<Option<CrtcInfo>>) -> Seq<Screen> {
    numbered_screens(found_crtcs(infos)).filter(|s: Screen| is_active_screen(s))
}

/// The `i`-th numbered screen shows the `i`-th CRTC, whole, and is numbered `i` (for as
/// many CRTCs as a vector can hold).
pub proof fn lemma_numbered_screens(crtcs: Seq<CrtcInfo>)
    requires
        crtcs.len() <= usize::MAX,
    ensures
        numbered_screens(crtcs).len() == crtcs.len(),
        forall|i: int|
            0 <= i < crtcs.len() ==> {
                &&& (#[trigger] numbered_screens(crtcs)[i]).wix == i
                &&& numbered_screens(crtcs)[i].true_region.w == crtcs[i].width
                &&& numbered_screens(crtcs)[i].true_region.h == crtcs[i].height
                &&& numbered_screens(crtcs)[i].true_region == crtc_region(crtcs[i])
                &&& numbered_screens(crtcs)[i].effective_region == numbered_screens(
                    crtcs,
                )[i].true_region
            },
{
}

/// When the info of every CRTC could be read, all of them are found, in order; a CRTC
/// whose info could not be read is skipped, and the others stay in order.
pub proof fn lemma_found_crtcs(infos: Seq<Option<CrtcInfo>>)
    ensures
        found_crtcs(infos).len() <= infos.len(),
        (forall|i: int| 0 <= i < infos.len() ==> #[trigger] infos[i] is Some) ==> {
            &&& found_crtcs(infos).len() == infos.len()
            &&& forall|i: int| 0 <= i < infos.len() ==> #[trigger] found_crtcs(infos)[i] == infos[i]->0
        },
        forall|c: CrtcInfo| #[trigger] found_crtcs(infos.push(Some(c))) == found_crtcs(infos).push(c),
        found_crtcs(infos.push(None)) == found_crtcs(infos),
    decreases infos.len(),
{
    assert(infos.push(None).drop_last() =~= infos);
    assert forall|c: CrtcInfo| #[trigger] found_crtcs(infos.push(Some(c))) == found_crtcs(infos).push(c) by {
        assert(infos.push(Some(c)).drop_last() =~= infos);
    }
    if infos.len() > 0 {
        lemma_found_crtcs(infos.drop_last());
        if forall|i: int| 0 <= i < infos.len() ==> #[trigger] infos[i] is Some {
            assert forall|i: int| 0 <= i < infos.drop_last().len() implies #[trigger] infos.drop_last()[i] is Some by {
                assert(infos[i] is Some);
            }
            assert(infos[infos.len() - 1] is Some);
        }
    }
}

/// Every screen of a CRTC that shows something (has a width) is reported.
pub proof fn lemma_output_screens_complete(infos: Seq<Option<CrtcInfo>>, i: int)
    requires
        0 <= i < numbered_screens(found_crtcs(infos)).len(),
        is_active_screen(numbered_screens(found_crtcs(infos))[i]),
    ensures
        output_screens(infos).contains(numbered_screens(found_crtcs(infos))[i]),
{
    numbered_screens(found_crtcs(infos)).lemma_filter_contains(|s: Screen| is_active_screen(s), i);
}

/// Every screen that is reported shows something: it has a width.
pub proof fn lemma_output_screens_active(infos: Seq<Option<CrtcInfo>>)
    ensures
        forall|i: int|
            0 <= i < output_screens(infos).len() ==> is_active_screen(
                #[trigger] output_screens(infos)[i],
            ),
{
    let pred = |s: Screen| is_active_screen(s);
    assert forall|i: int| 0 <= i < output_screens(infos).len() implies is_active_screen(
        #[trigger] output_screens(infos)[i],
    ) by {
        numbered_screens(found_crtcs(infos)).lemma_filter_pred(pred, i);
    }
}

/// The screens of the current outputs, from the info of each CRTC (`None` where the
/// query for it failed).
pub fn screens_from_crtcs(infos: &Vec<Option<CrtcInfo>>) -> (r: Vec<Screen>)
    ensures
        r@ == output_screens(infos@),
{
    let mut out: Vec<Screen> = Vec::new();
    let mut wix: usize = 0;
    let n = infos.len();
    assert(infos@.subrange(0, 0) =~= Seq::<Option<CrtcInfo>>::empty());
    assert(numbered_screens(Seq::<CrtcInfo>::empty()) =~= Seq::<Screen>::empty());
    proof {
        reveal_with_fuel(Seq::<_>::filter, 1);
    }
    for i in 0..n
        invariant
            n == infos@.len(),
            wix <= i,
            wix == found_crtcs(infos@.subrange(0, i as int)).len(),
            out@ == output_screens(infos@.subrange(0, i as int)),
    {
        let ghost prefix = infos@.subrange(0, i as int);
        let ghost next = infos@.subrange(0, i + 1);
        assert(next.drop_last() =~= prefix);
        match infos[i] {
            Some(c) => {
                let screen = Screen::from_crtc_info(c, wix);
                let ghost found = found_crtcs(prefix);
                assert(found_crtcs(next) == found.push(c));
                assert(numbered_screens(found.push(c)) =~= numbered_screens(found).push(screen));
                proof {
                    numbered_screens(found).lemma_filter_push(
                        screen,
                        |s: Screen| is_active_screen(s),
                    );
                }
                if screen.true_region.w > 0 {
                    out.push(screen);
                }
                wix = wix + 1;
            },
            None => {
                assert(found_crtcs(next) == found_crtcs(prefix));
            },
        }
    }
    assert(infos@.subrange(0, n as int) =~= infos@);
    out
}

/// What is reported when the server does not answer a property query: the server's
/// error, after a word of context.
pub open spec fn fetch_error(e: Seq<char>) -> Seq<char> {
    "unable to fetch window property: "@ + e
}

fn fetch_error_message(e: String) -> (r: String)
    ensures
        r@ == fetch_error(e@),
{
    let mut m = <String as StringExecFns>::from_str("unable to fetch window property: ");
    m.append(e.as_str());
    m
}

/// What is reported when the value of a string property is not UTF-8: the decoding
/// error, after a word of context.
pub open spec fn utf8_error(e: Seq<char>) -> Seq<char> {
    "invalid utf8 resonse from xcb: "@ + e
}

/// The texts of the errors that property queries report: the server's error after
/// "unable to fetch window property: ", the decoding error after "invalid utf8 resonse
/// from xcb: ", and, for an empty value, the property's name and the window's ID.
pub proof fn lemma_error_texts(e: Seq<char>, name: Seq<char>, id: u32)
    ensures
        fetch_error(e) == "unable to fetch window property: "@ + e,
        utf8_error(e) == "invalid utf8 resonse from xcb: "@ + e,
        empty_property_error(name, id) == "property '"@ + name + "' was empty for id: "@
            + decimal(id as nat),
{
}

/// The value of a string property from the result of decoding its bytes: the decoded
/// string, or the decoding error after a word of context.
pub fn str_prop_from_decoded(decoded: Result<String, String>) -> (r: Result<String, String>)
    ensures
        match decoded {
            Ok(s) => r matches Ok(t) && t@ == s@,
            Err(e) => r matches Err(m) && m@ == utf8_error(e@),
        },
{
    match decoded {
        Err(e) => {
            let mut m = <String as StringExecFns>::from_str("invalid utf8 resonse from xcb: ");
            m.append(e.as_str());
            Err(m)
        },
        Ok(s) => Ok(s),
    }
}

/// The value of a string property, from the reply to the query for it (the bytes of the
/// value, or the server's error): the bytes decoded as UTF-8.
pub fn str_prop_from_reply(reply: Result<Vec<u8>, String>) -> (r: Result<String, String>)
    ensures
        match reply {
            Err(e) => r matches Err(m) && m@ == fetch_error(e@),
            Ok(bytes) => if valid_utf8(bytes@) {
                r matches Ok(s) && s@ == decode_utf8(bytes@)
            } else {
                r matches Err(m) && m@ == utf8_error(utf8_error_message(bytes@))
            },
        },
{
    match reply {
        Err(e) => Err(fetch_error_message(e)),
        Ok(bytes) => str_prop_from_decoded(string_from_utf8(bytes)),
    }
}

/// What is reported when a property has no value.
pub open spec fn empty_property_error(name: Seq<char>, id: u32) -> Seq<char> {
    "property '"@ + name + "' was empty for id: "@ + decimal(id as nat)
}

/// The value of an atom property `name` of window `id`, from the reply to the query for
/// it (the length of the value and its 32-bit units, or the server's error): the first
/// unit, unless the value is empty.
pub fn atom_prop_from_reply(id: u32, name: &str, reply: Result<(u32, Vec<u32>), String>) -> (r:
    Result<u32, String>)
    requires
        reply matches Ok((len, values)) ==> (len > 0 ==> values@.len() > 0),
    ensures
        match reply {
            Err(e) => r matches Err(m) && m@ == fetch_error(e@),
            Ok((len, values)) => if len == 0 {
                r matches Err(m) && m@ == empty_property_error(name@, id)
            } else {
                r == Ok::<u32, String>(values@[0])
            },
        },
{
    match reply {
        Err(e) => Err(fetch_error_message(e)),
        Ok((len, values)) => {
            if len == 0 {
                let mut m = <String as StringExecFns>::from_str("property '");
                m.append(name);
                m.append("' was empty for id: ");
                push_decimal(&mut m, id);
                Err(m)
            } else {
                Ok(values[0])
            }
        },
    }
}

} // verus!
