//! Storing the pages of a finished search on the app, and the follow-up
//! checks it asks for. The requests themselves are made by the network task,
//! which hands the converted pages (or the first hard failure) to
//! [`apply_search_results`].

use vstd::prelude::*;

use crate::domain::app::{App, IoEvent, SearchResultsState};
use crate::domain::pagination::Paged;
use crate::domain::plugin_api::{AlbumInfo, ArtistInfo, ArtistRef, PlaylistInfo, ShowInfo, TrackInfo};
use crate::text::{dec, owned, u64_to_string};

verus! {

/// The query parameters of one search request: the search term, the kind of
/// item searched for, the page size, and the first page.
pub open spec fn search_query_params(term: Seq<char>, kind: Seq<char>, limit: u32) -> Seq<(Seq<char>, Seq<char>)> {
    seq![("q"@, term), ("type"@, kind), ("limit"@, dec(limit as nat)), ("offset"@, "0"@)]
}

/// The query parameters of a search for `term` among items of `kind`
/// (`track`, `album`, `playlist`, `show`, `artist`), `limit` per page.
pub fn search_query(term: &str, kind: &str, limit: u32) -> (q: Vec<(String, String)>)
    ensures
        q@.map_values(|p: (String, String)| (p.0@, p.1@)) == search_query_params(term@, kind@, limit),
{
    let mut q: Vec<(String, String)> = Vec::new();
    q.push((owned("q"), owned(term)));
    q.push((owned("type"), owned(kind)));
    q.push((owned("limit"), u64_to_string(limit as u64)));
    q.push((owned("offset"), owned("0")));
    assert(q@.map_values(|p: (String, String)| (p.0@, p.1@)) =~= search_query_params(term@, kind@, limit));
    q
}

/// Number of items on a page, 0 when there is no page.
pub fn page_len<T>(page: &Option<Paged<T>>) -> (n: usize)
    ensures
        n == match page {
            Some(p) => p.items@.len(),
            None => 0,
        },
{
    match page {
        Some(p) => p.items.len(),
        None => 0,
    }
}

/// A selection kept in range of a page of `len` items: none when the page
/// is empty, otherwise the old row or the last row, whichever comes first.
pub open spec fn clamped(index: Option<usize>, len: nat) -> Option<usize> {
    if len == 0 {
        None
    } else {
        match index {
            Some(i) => Some(if i < len - 1 {
                i
            } else {
                (len - 1) as usize
            }),
            None => None,
        }
    }
}

/// Keep a selected row in range of a freshly replaced page of `len` items.
pub fn clamp_selected_index(index: &mut Option<usize>, len: usize)
    ensures
        *final(index) == clamped(*old(index), len as nat),
{
    let new: Option<usize> = if len == 0 {
        None
    } else {
        match *index {
            Some(i) => Some(if i < len - 1 {
                i
            } else {
                len - 1
            }),
            None => None,
        }
    };
    *index = new;
}

/// A clamped selection points into the page, clamping twice is clamping
/// once, and a selection already in range is kept.
pub proof fn lemma_clamped_in_range(index: Option<usize>, len: nat)
    requires
        len <= usize::MAX,
    ensures
        clamped(index, len) matches Some(i) ==> i < len,
        clamped(clamped(index, len), len) == clamped(index, len),
        (index matches Some(i) && i < len) ==> clamped(index, len) == index,
        len > 0 ==> (clamped(index, len) is Some <==> index is Some),
{
}

/// The views of the ids that are present, in order.
pub open spec fn present_ids(ids: Seq<Option<String>>) -> Seq<Seq<char>>
    decreases ids.len(),
{
    if ids.len() == 0 {
        Seq::empty()
    } else {
        present_ids(ids.drop_last()) + match ids.last() {
            Some(id) => seq![id@],
            None => Seq::empty(),
        }
    }
}

/// Ids of the tracks that have one.
pub open spec fn track_ids(items: Seq<TrackInfo>) -> Seq<Seq<char>> {
    present_ids(items.map_values(|t: TrackInfo| t.id))
}

/// Ids of the albums that have one.
pub open spec fn album_ids(items: Seq<AlbumInfo>) -> Seq<Seq<char>> {
    present_ids(items.map_values(|a: AlbumInfo| a.id))
}

/// Ids of the shows that have one.
pub open spec fn show_ids(items: Seq<ShowInfo>) -> Seq<Seq<char>> {
    present_ids(items.map_values(|s: ShowInfo| s.id))
}

/// Ids of the artists credited on the albums, album by album.
pub open spec fn album_artist_ids(items: Seq<AlbumInfo>) -> Seq<Seq<char>>
    decreases items.len(),
{
    if items.len() == 0 {
        Seq::empty()
    } else {
        album_artist_ids(items.drop_last()) + present_ids(
            items.last().artists@.map_values(|r: ArtistRef| r.id),
        )
    }
}

/// The views of a list of owned strings.
pub open spec fn views(v: Seq<String>) -> Seq<Seq<char>> {
    v.map_values(|s: String| s@)
}

/// Append the present id to `out`.
fn push_present(out: &mut Vec<String>, id: &Option<String>)
    ensures
        views(final(out)@) == views(old(out)@) + match *id {
            Some(s) => seq![s@],
            None => Seq::<Seq<char>>::empty(),
        },
{
    if let Some(s) = id {
        out.push(s.clone());
    }
    assert(views(out@) =~= views(old(out)@) + match *id {
        Some(s) => seq![s@],
        None => Seq::<Seq<char>>::empty(),
    });
}

fn collect_track_ids(items: &Vec<TrackInfo>) -> (r: Vec<String>)
    ensures
        views(r@) == track_ids(items@),
{
    let mut out: Vec<String> = Vec::new();
    let mut i: usize = 0;
    while i < items.len()
        invariant
            i <= items@.len(),
            views(out@) == track_ids(items@.subrange(0, i as int)),
        decreases items@.len() - i,
    {
        proof {
            let s = items@.subrange(0, i + 1).map_values(|t: TrackInfo| t.id);
            assert(s.drop_last() =~= items@.subrange(0, i as int).map_values(|t: TrackInfo| t.id));
        }
        push_present(&mut out, &items[i].id);
        i = i + 1;
    }
    assert(items@.subrange(0, items@.len() as int) =~= items@);
    out
}

fn collect_album_ids(items: &Vec<AlbumInfo>) -> (r: Vec<String>)
    ensures
        views(r@) == album_ids(items@),
{
    let mut out: Vec<String> = Vec::new();
    let mut i: usize = 0;
    while i < items.len()
        invariant
            i <= items@.len(),
            views(out@) == album_ids(items@.subrange(0, i as int)),
        decreases items@.len() - i,
    {
        proof {
            let s = items@.subrange(0, i + 1).map_values(|a: AlbumInfo| a.id);
            assert(s.drop_last() =~= items@.subrange(0, i as int).map_values(|a: AlbumInfo| a.id));
        }
        push_present(&mut out, &items[i].id);
        i = i + 1;
    }
    assert(items@.subrange(0, items@.len() as int) =~= items@);
    out
}

fn collect_show_ids(items: &Vec<ShowInfo>) -> (r: Vec<String>)
    ensures
        views(r@) == show_ids(items@),
{
    let mut out: Vec<String> = Vec::new();
    let mut i: usize = 0;
    while i < items.len()
        invariant
            i <= items@.len(),
            views(out@) == show_ids(items@.subrange(0, i as int)),
        decreases items@.len() - i,
    {
        proof {
            let s = items@.subrange(0, i + 1).map_values(|x: ShowInfo| x.id);
            assert(s.drop_last() =~= items@.subrange(0, i as int).map_values(|x: ShowInfo| x.id));
        }
        push_present(&mut out, &items[i].id);
        i = i + 1;
    }
    assert(items@.subrange(0, items@.len() as int) =~= items@);
    out
}

fn collect_artist_ids(artists: &Vec<ArtistRef>, out: &mut Vec<String>)
    ensures
        views(final(out)@) == views(old(out)@) + present_ids(
            artists@.map_values(|r: ArtistRef| r.id),
        ),
{
    let mut i: usize = 0;
    while i < artists.len()
        invariant
            i <= artists@.len(),
            views(out@) == views(old(out)@) + present_ids(
                artists@.subrange(0, i as int).map_values(|r: ArtistRef| r.id),
            ),
        decreases artists@.len() - i,
    {
        proof {
            let s = artists@.subrange(0, i + 1).map_values(|r: ArtistRef| r.id);
            assert(s.drop_last() =~= artists@.subrange(0, i as int).map_values(|r: ArtistRef| r.id));
        }
        let ghost before = views(out@);
        push_present(out, &artists[i].id);
        proof {
            let s = artists@.subrange(0, i + 1).map_values(|r: ArtistRef| r.id);
            let t = artists@.subrange(0, i as int).map_values(|r: ArtistRef| r.id);
            assert(views(out@) =~= views(old(out)@) + present_ids(s)) by {
                assert(present_ids(s) == present_ids(t) + match s.last() {
                    Some(id) => seq![id@],
                    None => Seq::<Seq<char>>::empty(),
                });
            }
        }
        i = i + 1;
    }
    assert(artists@.subrange(0, artists@.len() as int) =~= artists@);
}

fn collect_album_artist_ids(items: &Vec<AlbumInfo>) -> (r: Vec<String>)
    ensures
        views(r@) == album_artist_ids(items@),
{
    let mut out: Vec<String> = Vec::new();
    let mut i: usize = 0;
    while i < items.len()
        invariant
            i <= items@.len(),
            views(out@) == album_artist_ids(items@.subrange(0, i as int)),
        decreases items@.len() - i,
    {
        proof {
            assert(items@.subrange(0, i + 1).drop_last() =~= items@.subrange(0, i as int));
        }
        collect_artist_ids(&items[i].artists, &mut out);
        i = i + 1;
    }
    assert(items@.subrange(0, items@.len() as int) =~= items@);
    out
}

/// The search generation after one more finished search (wrapping).
pub open spec fn next_generation(g: u64) -> u64 {
    if g < u64::MAX {
        (g + 1) as u64
    } else {
        0
    }
}

/// The checks a finished search asks for: which tracks are liked, which
/// album artists are followed, which albums and which shows are saved.
pub open spec fn search_checks_sent(
    events: Seq<IoEvent>,
    tracks: Seq<TrackInfo>,
    albums: Seq<AlbumInfo>,
    shows: Seq<ShowInfo>,
) -> bool {
    &&& events.len() == 4
    &&& events[0] matches IoEvent::CurrentUserSavedTracksContains(v) && views(v@) == track_ids(tracks)
    &&& events[1] matches IoEvent::UserArtistFollowCheck(v) && views(v@) == album_artist_ids(albums)
    &&& events[2] matches IoEvent::CurrentUserSavedAlbumsContains(v) && views(v@) == album_ids(albums)
    &&& events[3] matches IoEvent::CurrentUserSavedShowsContains(v) && views(v@) == show_ids(shows)
}

/// Store a finished search. The track, album and show searches must have
/// succeeded: the first failure among them, in that order, is returned and
/// nothing changes. The artist and playlist searches are optional (a failed
/// one leaves its category empty). On success the follow-up checks are
/// queued, the five pages replace the old ones, each selected row is kept
/// in range of its new page, and the search generation advances.
pub fn apply_search_results(
    app: &mut App,
    tracks: Result<Paged<TrackInfo>, String>,
    albums: Result<Paged<AlbumInfo>, String>,
    shows: Result<Paged<ShowInfo>, String>,
    artists: Option<Paged<ArtistInfo>>,
    playlists: Option<Paged<PlaylistInfo>>,
) -> (r: Result<(), String>)
    ensures
        tracks matches Err(e) ==> r == Err::<(), String>(e) && *final(app) == *old(app),
        tracks is Ok ==> (albums matches Err(e) ==> r == Err::<(), String>(e) && *final(app)
            == *old(app)),
        (tracks is Ok && albums is Ok) ==> (shows matches Err(e) ==> r == Err::<(), String>(e)
            && *final(app) == *old(app)),
        (tracks is Ok && albums is Ok && shows is Ok) ==> {
            let t = tracks->Ok_0;
            let al = albums->Ok_0;
            let sh = shows->Ok_0;
            let old_sel = old(app).search_results;
            &&& r is Ok
            &&& *final(app) == (App {
                dispatched: final(app).dispatched,
                search_results: SearchResultsState {
                    tracks: Some(t),
                    albums: Some(al),
                    artists,
                    playlists,
                    shows: Some(sh),
                    selected_tracks_index: clamped(old_sel.selected_tracks_index, t.items@.len()),
                    selected_album_index: clamped(old_sel.selected_album_index, al.items@.len()),
                    selected_artists_index: clamped(
                        old_sel.selected_artists_index,
                        match artists {
                            Some(p) => p.items@.len(),
                            None => 0,
                        },
                    ),
                    selected_playlists_index: clamped(
                        old_sel.selected_playlists_index,
                        match playlists {
                            Some(p) => p.items@.len(),
                            None => 0,
                        },
                    ),
                    selected_shows_index: clamped(old_sel.selected_shows_index, sh.items@.len()),
                },
                search_generation: next_generation(old(app).search_generation),
                ..*old(app)
            })
            &&& final(app).dispatched@.subrange(0, old(app).dispatched@.len() as int)
                == old(app).dispatched@
            &&& search_checks_sent(
                final(app).dispatched@.subrange(
                    old(app).dispatched@.len() as int,
                    final(app).dispatched@.len() as int,
                ),
                t.items@,
                al.items@,
                sh.items@,
            )
        },
{
    let t: Paged<TrackInfo> = match tracks {
        Ok(p) => p,
        Err(e) => {
            return Err(e);
        },
    };
    let al: Paged<AlbumInfo> = match albums {
        Ok(p) => p,
        Err(e) => {
            return Err(e);
        },
    };
    let sh: Paged<ShowInfo> = match shows {
        Ok(p) => p,
        Err(e) => {
            return Err(e);
        },
    };
    let ghost start = app.dispatched@;
    let liked: Vec<String> = collect_track_ids(&t.items);
    app.dispatch(IoEvent::CurrentUserSavedTracksContains(liked));
    let followed: Vec<String> = collect_album_artist_ids(&al.items);
    app.dispatch(IoEvent::UserArtistFollowCheck(followed));
    let saved_albums: Vec<String> = collect_album_ids(&al.items);
    app.dispatch(IoEvent::CurrentUserSavedAlbumsContains(saved_albums));
    let saved_shows: Vec<String> = collect_show_ids(&sh.items);
    app.dispatch(IoEvent::CurrentUserSavedShowsContains(saved_shows));
    let tracks_len: usize = t.items.len();
    let albums_len: usize = al.items.len();
    let shows_len: usize = sh.items.len();
    let artists_len: usize = page_len(&artists);
    let playlists_len: usize = page_len(&playlists);
    app.search_results.tracks = Some(t);
    app.search_results.albums = Some(al);
    app.search_results.shows = Some(sh);
    app.search_results.artists = artists;
    app.search_results.playlists = playlists;
    clamp_selected_index(&mut app.search_results.selected_tracks_index, tracks_len);
    clamp_selected_index(&mut app.search_results.selected_artists_index, artists_len);
    clamp_selected_index(&mut app.search_results.selected_album_index, albums_len);
    clamp_selected_index(&mut app.search_results.selected_playlists_index, playlists_len);
    clamp_selected_index(&mut app.search_results.selected_shows_index, shows_len);
    app.search_generation = app.search_generation.wrapping_add(1);
    proof {
        assert(app.dispatched@.subrange(0, start.len() as int) =~= start);
    }
    Ok(())
}

/// Store the tracks found for the playlist being created: only tracks with
/// an id are kept, and the first result is selected. A failed search
/// changes nothing and is returned.
pub fn apply_playlist_track_search(app: &mut App, found: Result<Vec<TrackInfo>, String>) -> (r: Result<(), String>)
    ensures
        found matches Err(e) ==> r == Err::<(), String>(e) && *final(app) == *old(app),
        found matches Ok(v) ==> {
            &&& r is Ok
            &&& *final(app) == (App {
                create_playlist_search_results: final(app).create_playlist_search_results,
                create_playlist_selected_result: 0,
                ..*old(app)
            })
            &&& final(app).create_playlist_search_results@ == v@.filter(|t: TrackInfo| t.id is Some)
        },
{
    let v: Vec<TrackInfo> = match found {
        Ok(v) => v,
        Err(e) => {
            return Err(e);
        },
    };
    let mut kept: Vec<TrackInfo> = Vec::new();
    let mut rest: Vec<TrackInfo> = v;
    let ghost all = rest@;
    let ghost pred = |t: TrackInfo| t.id is Some;
    while rest.len() > 0
        invariant
            rest@.len() <= all.len(),
            all == all.subrange(0, all.len() - rest@.len()) + rest@,
            kept@ == all.subrange(0, all.len() - rest@.len()).filter(pred),
            pred == (|t: TrackInfo| t.id is Some),
        decreases rest@.len(),
    {
        let ghost done = all.subrange(0, all.len() - rest@.len());
        let ghost before = rest@;
        let x: TrackInfo = rest.remove(0);
        proof {
            let done2 = all.subrange(0, all.len() - rest@.len());
            assert(done2 =~= done.push(x));
            assert(done2.drop_last() =~= done);
            assert(rest@ =~= before.drop_first());
            assert(all =~= done2 + rest@);
        }
        let keep: bool = x.id.is_some();
        if keep {
            kept.push(x);
        }
        proof {
            let done2 = all.subrange(0, all.len() - rest@.len());
            reveal(Seq::filter);
            assert(done2.filter(pred) == if pred(done2.last()) {
                done2.drop_last().filter(pred).push(done2.last())
            } else {
                done2.drop_last().filter(pred)
            });
        }
    }
    proof {
        assert(all.subrange(0, all.len() as int) =~= all);
    }
    app.create_playlist_search_results = kept;
    app.create_playlist_selected_result = 0;
    Ok(())
}

} // verus!
