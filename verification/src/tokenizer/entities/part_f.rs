use vstd::prelude::*;

verus! {

/// The names of the references 1280 to 1343, from `&late;` to `&lmidot;`.
#[verifier::opaque]
pub open spec fn names_1280(index: int) -> Seq<char> {
    if index == 1280 {
        "late;"@
    } else if index == 1281 {
        "lates;"@
    } else if index == 1282 {
        "lbarr;"@
    } else if index == 1283 {
        "lbbrk;"@
    } else if index == 1284 {
        "lbrace;"@
    } else if index == 1285 {
        "lbrack;"@
    } else if index == 1286 {
        "lbrke;"@
    } else if index == 1287 {
        "lbrksld;"@
    } else if index == 1288 {
        "lbrkslu;"@
    } else if index == 1289 {
        "lcaron;"@
    } else if index == 1290 {
        "lcedil;"@
    } else if index == 1291 {
        "lceil;"@
    } else if index == 1292 {
        "lcub;"@
    } else if index == 1293 {
        "lcy;"@
    } else if index == 1294 {
        "ldca;"@
    } else if index == 1295 {
        "ldquo;"@
    } else if index == 1296 {
        "ldquor;"@
    } else if index == 1297 {
        "ldrdhar;"@
    } else if index == 1298 {
        "ldrushar;"@
    } else if index == 1299 {
        "ldsh;"@
    } else if index == 1300 {
        "le;"@
    } else if index == 1301 {
        "leftarrow;"@
    } else if index == 1302 {
        "leftarrowtail;"@
    } else if index == 1303 {
        "leftharpoondown;"@
    } else if index == 1304 {
        "leftharpoonup;"@
    } else if index == 1305 {
        "leftleftarrows;"@
    } else if index == 1306 {
        "leftrightarrow;"@
    } else if index == 1307 {
        "leftrightarrows;"@
    } else if index == 1308 {
        "leftrightharpoons;"@
    } else if index == 1309 {
        "leftrightsquigarrow;"@
    } else if index == 1310 {
        "leftthreetimes;"@
    } else if index == 1311 {
        "leg;"@
    } else if index == 1312 {
        "leq;"@
    } else if index == 1313 {
        "leqq;"@
    } else if index == 1314 {
        "leqslant;"@
    } else if index == 1315 {
        "les;"@
    } else if index == 1316 {
        "lescc;"@
    } else if index == 1317 {
        "lesdot;"@
    } else if index == 1318 {
        "lesdoto;"@
    } else if index == 1319 {
        "lesdotor;"@
    } else if index == 1320 {
        "lesg;"@
    } else if index == 1321 {
        "lesges;"@
    } else if index == 1322 {
        "lessapprox;"@
    } else if index == 1323 {
        "lessdot;"@
    } else if index == 1324 {
        "lesseqgtr;"@
    } else if index == 1325 {
        "lesseqqgtr;"@
    } else if index == 1326 {
        "lessgtr;"@
    } else if index == 1327 {
        "lesssim;"@
    } else if index == 1328 {
        "lfisht;"@
    } else if index == 1329 {
        "lfloor;"@
    } else if index == 1330 {
        "lfr;"@
    } else if index == 1331 {
        "lg;"@
    } else if index == 1332 {
        "lgE;"@
    } else if index == 1333 {
        "lhard;"@
    } else if index == 1334 {
        "lharu;"@
    } else if index == 1335 {
        "lharul;"@
    } else if index == 1336 {
        "lhblk;"@
    } else if index == 1337 {
        "ljcy;"@
    } else if index == 1338 {
        "ll;"@
    } else if index == 1339 {
        "llarr;"@
    } else if index == 1340 {
        "llcorner;"@
    } else if index == 1341 {
        "llhard;"@
    } else if index == 1342 {
        "lltri;"@
    } else if index == 1343 {
        "lmidot;"@
    } else {
        Seq::empty()
    }
}

/// The characters that the references 1280 to 1343 stand for.
#[verifier::opaque]
pub open spec fn texts_1280(index: int) -> Seq<char> {
    if index == 1280 {
        "\u{2AAD}"@
    } else if index == 1281 {
        "\u{2AAD}\u{FE00}"@
    } else if index == 1282 {
        "\u{290C}"@
    } else if index == 1283 {
        "\u{2772}"@
    } else if index == 1284 {
        "\u{7B}"@
    } else if index == 1285 {
        "\u{5B}"@
    } else if index == 1286 {
        "\u{298B}"@
    } else if index == 1287 {
        "\u{298F}"@
    } else if index == 1288 {
        "\u{298D}"@
    } else if index == 1289 {
        "\u{13E}"@
    } else if index == 1290 {
        "\u{13C}"@
    } else if index == 1291 {
        "\u{2308}"@
    } else if index == 1292 {
        "\u{7B}"@
    } else if index == 1293 {
        "\u{43B}"@
    } else if index == 1294 {
        "\u{2936}"@
    } else if index == 1295 {
        "\u{201C}"@
    } else if index == 1296 {
        "\u{201E}"@
    } else if index == 1297 {
        "\u{2967}"@
    } else if index == 1298 {
        "\u{294B}"@
    } else if index == 1299 {
        "\u{21B2}"@
    } else if index == 1300 {
        "\u{2264}"@
    } else if index == 1301 {
        "\u{2190}"@
    } else if index == 1302 {
        "\u{21A2}"@
    } else if index == 1303 {
        "\u{21BD}"@
    } else if index == 1304 {
        "\u{21BC}"@
    } else if index == 1305 {
        "\u{21C7}"@
    } else if index == 1306 {
        "\u{2194}"@
    } else if index == 1307 {
        "\u{21C6}"@
    } else if index == 1308 {
        "\u{21CB}"@
    } else if index == 1309 {
        "\u{21AD}"@
    } else if index == 1310 {
        "\u{22CB}"@
    } else if index == 1311 {
        "\u{22DA}"@
    } else if index == 1312 {
        "\u{2264}"@
    } else if index == 1313 {
        "\u{2266}"@
    } else if index == 1314 {
        "\u{2A7D}"@
    } else if index == 1315 {
        "\u{2A7D}"@
    } else if index == 1316 {
        "\u{2AA8}"@
    } else if index == 1317 {
        "\u{2A7F}"@
    } else if index == 1318 {
        "\u{2A81}"@
    } else if index == 1319 {
        "\u{2A83}"@
    } else if index == 1320 {
        "\u{22DA}\u{FE00}"@
    } else if index == 1321 {
        "\u{2A93}"@
    } else if index == 1322 {
        "\u{2A85}"@
    } else if index == 1323 {
        "\u{22D6}"@
    } else if index == 1324 {
        "\u{22DA}"@
    } else if index == 1325 {
        "\u{2A8B}"@
    } else if index == 1326 {
        "\u{2276}"@
    } else if index == 1327 {
        "\u{2272}"@
    } else if index == 1328 {
        "\u{297C}"@
    } else if index == 1329 {
        "\u{230A}"@
    } else if index == 1330 {
        "\u{1D529}"@
    } else if index == 1331 {
        "\u{2276}"@
    } else if index == 1332 {
        "\u{2A91}"@
    } else if index == 1333 {
        "\u{21BD}"@
    } else if index == 1334 {
        "\u{21BC}"@
    } else if index == 1335 {
        "\u{296A}"@
    } else if index == 1336 {
        "\u{2584}"@
    } else if index == 1337 {
        "\u{459}"@
    } else if index == 1338 {
        "\u{226A}"@
    } else if index == 1339 {
        "\u{21C7}"@
    } else if index == 1340 {
        "\u{231E}"@
    } else if index == 1341 {
        "\u{296B}"@
    } else if index == 1342 {
        "\u{25FA}"@
    } else if index == 1343 {
        "\u{140}"@
    } else {
        Seq::empty()
    }
}

/// The name of the reference `index` and the characters that it stands for.
pub fn entry_1280(index: usize) -> (r: (&'static str, &'static str))
    ensures
        r.0@ == names_1280(index as int),
        r.1@ == texts_1280(index as int),
{
    proof {
        reveal(names_1280);
        reveal(texts_1280);
        reveal_strlit("");
    }
    match index {
        1280 => ("late;", "\u{2AAD}"),
        1281 => ("lates;", "\u{2AAD}\u{FE00}"),
        1282 => ("lbarr;", "\u{290C}"),
        1283 => ("lbbrk;", "\u{2772}"),
        1284 => ("lbrace;", "\u{7B}"),
        1285 => ("lbrack;", "\u{5B}"),
        1286 => ("lbrke;", "\u{298B}"),
        1287 => ("lbrksld;", "\u{298F}"),
        1288 => ("lbrkslu;", "\u{298D}"),
        1289 => ("lcaron;", "\u{13E}"),
        1290 => ("lcedil;", "\u{13C}"),
        1291 => ("lceil;", "\u{2308}"),
        1292 => ("lcub;", "\u{7B}"),
        1293 => ("lcy;", "\u{43B}"),
        1294 => ("ldca;", "\u{2936}"),
        1295 => ("ldquo;", "\u{201C}"),
        1296 => ("ldquor;", "\u{201E}"),
        1297 => ("ldrdhar;", "\u{2967}"),
        1298 => ("ldrushar;", "\u{294B}"),
        1299 => ("ldsh;", "\u{21B2}"),
        1300 => ("le;", "\u{2264}"),
        1301 => ("leftarrow;", "\u{2190}"),
        1302 => ("leftarrowtail;", "\u{21A2}"),
        1303 => ("leftharpoondown;", "\u{21BD}"),
        1304 => ("leftharpoonup;", "\u{21BC}"),
        1305 => ("leftleftarrows;", "\u{21C7}"),
        1306 => ("leftrightarrow;", "\u{2194}"),
        1307 => ("leftrightarrows;", "\u{21C6}"),
        1308 => ("leftrightharpoons;", "\u{21CB}"),
        1309 => ("leftrightsquigarrow;", "\u{21AD}"),
        1310 => ("leftthreetimes;", "\u{22CB}"),
        1311 => ("leg;", "\u{22DA}"),
        1312 => ("leq;", "\u{2264}"),
        1313 => ("leqq;", "\u{2266}"),
        1314 => ("leqslant;", "\u{2A7D}"),
        1315 => ("les;", "\u{2A7D}"),
        1316 => ("lescc;", "\u{2AA8}"),
        1317 => ("lesdot;", "\u{2A7F}"),
        1318 => ("lesdoto;", "\u{2A81}"),
        1319 => ("lesdotor;", "\u{2A83}"),
        1320 => ("lesg;", "\u{22DA}\u{FE00}"),
        1321 => ("lesges;", "\u{2A93}"),
        1322 => ("lessapprox;", "\u{2A85}"),
        1323 => ("lessdot;", "\u{22D6}"),
        1324 => ("lesseqgtr;", "\u{22DA}"),
        1325 => ("lesseqqgtr;", "\u{2A8B}"),
        1326 => ("lessgtr;", "\u{2276}"),
        1327 => ("lesssim;", "\u{2272}"),
        1328 => ("lfisht;", "\u{297C}"),
        1329 => ("lfloor;", "\u{230A}"),
        1330 => ("lfr;", "\u{1D529}"),
        1331 => ("lg;", "\u{2276}"),
        1332 => ("lgE;", "\u{2A91}"),
        1333 => ("lhard;", "\u{21BD}"),
        1334 => ("lharu;", "\u{21BC}"),
        1335 => ("lharul;", "\u{296A}"),
        1336 => ("lhblk;", "\u{2584}"),
        1337 => ("ljcy;", "\u{459}"),
        1338 => ("ll;", "\u{226A}"),
        1339 => ("llarr;", "\u{21C7}"),
        1340 => ("llcorner;", "\u{231E}"),
        1341 => ("llhard;", "\u{296B}"),
        1342 => ("lltri;", "\u{25FA}"),
        1343 => ("lmidot;", "\u{140}"),
        _ => ("", ""),
    }
}

/// The names of the references 1344 to 1407, from `&lmoust;` to `&macr`.
#[verifier::opaque]
pub open spec fn names_1344(index: int) -> Seq<char> {
    if index == 1344 {
        "lmoust;"@
    } else if index == 1345 {
        "lmoustache;"@
    } else if index == 1346 {
        "lnE;"@
    } else if index == 1347 {
        "lnap;"@
    } else if index == 1348 {
        "lnapprox;"@
    } else if index == 1349 {
        "lne;"@
    } else if index == 1350 {
        "lneq;"@
    } else if index == 1351 {
        "lneqq;"@
    } else if index == 1352 {
        "lnsim;"@
    } else if index == 1353 {
        "loang;"@
    } else if index == 1354 {
        "loarr;"@
    } else if index == 1355 {
        "lobrk;"@
    } else if index == 1356 {
        "longleftarrow;"@
    } else if index == 1357 {
        "longleftrightarrow;"@
    } else if index == 1358 {
        "longmapsto;"@
    } else if index == 1359 {
        "longrightarrow;"@
    } else if index == 1360 {
        "looparrowleft;"@
    } else if index == 1361 {
        "looparrowright;"@
    } else if index == 1362 {
        "lopar;"@
    } else if index == 1363 {
        "lopf;"@
    } else if index == 1364 {
        "loplus;"@
    } else if index == 1365 {
        "lotimes;"@
    } else if index == 1366 {
        "lowast;"@
    } else if index == 1367 {
        "lowbar;"@
    } else if index == 1368 {
        "loz;"@
    } else if index == 1369 {
        "lozenge;"@
    } else if index == 1370 {
        "lozf;"@
    } else if index == 1371 {
        "lpar;"@
    } else if index == 1372 {
        "lparlt;"@
    } else if index == 1373 {
        "lrarr;"@
    } else if index == 1374 {
        "lrcorner;"@
    } else if index == 1375 {
        "lrhar;"@
    } else if index == 1376 {
        "lrhard;"@
    } else if index == 1377 {
        "lrm;"@
    } else if index == 1378 {
        "lrtri;"@
    } else if index == 1379 {
        "lsaquo;"@
    } else if index == 1380 {
        "lscr;"@
    } else if index == 1381 {
        "lsh;"@
    } else if index == 1382 {
        "lsim;"@
    } else if index == 1383 {
        "lsime;"@
    } else if index == 1384 {
        "lsimg;"@
    } else if index == 1385 {
        "lsqb;"@
    } else if index == 1386 {
        "lsquo;"@
    } else if index == 1387 {
        "lsquor;"@
    } else if index == 1388 {
        "lstrok;"@
    } else if index == 1389 {
        "lt"@
    } else if index == 1390 {
        "lt;"@
    } else if index == 1391 {
        "ltcc;"@
    } else if index == 1392 {
        "ltcir;"@
    } else if index == 1393 {
        "ltdot;"@
    } else if index == 1394 {
        "lthree;"@
    } else if index == 1395 {
        "ltimes;"@
    } else if index == 1396 {
        "ltlarr;"@
    } else if index == 1397 {
        "ltquest;"@
    } else if index == 1398 {
        "ltrPar;"@
    } else if index == 1399 {
        "ltri;"@
    } else if index == 1400 {
        "ltrie;"@
    } else if index == 1401 {
        "ltrif;"@
    } else if index == 1402 {
        "lurdshar;"@
    } else if index == 1403 {
        "luruhar;"@
    } else if index == 1404 {
        "lvertneqq;"@
    } else if index == 1405 {
        "lvnE;"@
    } else if index == 1406 {
        "mDDot;"@
    } else if index == 1407 {
        "macr"@
    } else {
        Seq::empty()
    }
}

/// The characters that the references 1344 to 1407 stand for.
#[verifier::opaque]
pub open spec fn texts_1344(index: int) -> Seq<char> {
    if index == 1344 {
        "\u{23B0}"@
    } else if index == 1345 {
        "\u{23B0}"@
    } else if index == 1346 {
        "\u{2268}"@
    } else if index == 1347 {
        "\u{2A89}"@
    } else if index == 1348 {
        "\u{2A89}"@
    } else if index == 1349 {
        "\u{2A87}"@
    } else if index == 1350 {
        "\u{2A87}"@
    } else if index == 1351 {
        "\u{2268}"@
    } else if index == 1352 {
        "\u{22E6}"@
    } else if index == 1353 {
        "\u{27EC}"@
    } else if index == 1354 {
        "\u{21FD}"@
    } else if index == 1355 {
        "\u{27E6}"@
    } else if index == 1356 {
        "\u{27F5}"@
    } else if index == 1357 {
        "\u{27F7}"@
    } else if index == 1358 {
        "\u{27FC}"@
    } else if index == 1359 {
        "\u{27F6}"@
    } else if index == 1360 {
        "\u{21AB}"@
    } else if index == 1361 {
        "\u{21AC}"@
    } else if index == 1362 {
        "\u{2985}"@
    } else if index == 1363 {
        "\u{1D55D}"@
    } else if index == 1364 {
        "\u{2A2D}"@
    } else if index == 1365 {
        "\u{2A34}"@
    } else if index == 1366 {
        "\u{2217}"@
    } else if index == 1367 {
        "\u{5F}"@
    } else if index == 1368 {
        "\u{25CA}"@
    } else if index == 1369 {
        "\u{25CA}"@
    } else if index == 1370 {
        "\u{29EB}"@
    } else if index == 1371 {
        "\u{28}"@
    } else if index == 1372 {
        "\u{2993}"@
    } else if index == 1373 {
        "\u{21C6}"@
    } else if index == 1374 {
        "\u{231F}"@
    } else if index == 1375 {
        "\u{21CB}"@
    } else if index == 1376 {
        "\u{296D}"@
    } else if index == 1377 {
        "\u{200E}"@
    } else if index == 1378 {
        "\u{22BF}"@
    } else if index == 1379 {
        "\u{2039}"@
    } else if index == 1380 {
        "\u{1D4C1}"@
    } else if index == 1381 {
        "\u{21B0}"@
    } else if index == 1382 {
        "\u{2272}"@
    } else if index == 1383 {
        "\u{2A8D}"@
    } else if index == 1384 {
        "\u{2A8F}"@
    } else if index == 1385 {
        "\u{5B}"@
    } else if index == 1386 {
        "\u{2018}"@
    } else if index == 1387 {
        "\u{201A}"@
    } else if index == 1388 {
        "\u{142}"@
    } else if index == 1389 {
        "\u{3C}"@
    } else if index == 1390 {
        "\u{3C}"@
    } else if index == 1391 {
        "\u{2AA6}"@
    } else if index == 1392 {
        "\u{2A79}"@
    } else if index == 1393 {
        "\u{22D6}"@
    } else if index == 1394 {
        "\u{22CB}"@
    } else if index == 1395 {
        "\u{22C9}"@
    } else if index == 1396 {
        "\u{2976}"@
    } else if index == 1397 {
        "\u{2A7B}"@
    } else if index == 1398 {
        "\u{2996}"@
    } else if index == 1399 {
        "\u{25C3}"@
    } else if index == 1400 {
        "\u{22B4}"@
    } else if index == 1401 {
        "\u{25C2}"@
    } else if index == 1402 {
        "\u{294A}"@
    } else if index == 1403 {
        "\u{2966}"@
    } else if index == 1404 {
        "\u{2268}\u{FE00}"@
    } else if index == 1405 {
        "\u{2268}\u{FE00}"@
    } else if index == 1406 {
        "\u{223A}"@
    } else if index == 1407 {
        "\u{AF}"@
    } else {
        Seq::empty()
    }
}

/// The name of the reference `index` and the characters that it stands for.
pub fn entry_1344(index: usize) -> (r: (&'static str, &'static str))
    ensures
        r.0@ == names_1344(index as int),
        r.1@ == texts_1344(index as int),
{
    proof {
        reveal(names_1344);
        reveal(texts_1344);
        reveal_strlit("");
    }
    match index {
        1344 => ("lmoust;", "\u{23B0}"),
        1345 => ("lmoustache;", "\u{23B0}"),
        1346 => ("lnE;", "\u{2268}"),
        1347 => ("lnap;", "\u{2A89}"),
        1348 => ("lnapprox;", "\u{2A89}"),
        1349 => ("lne;", "\u{2A87}"),
        1350 => ("lneq;", "\u{2A87}"),
        1351 => ("lneqq;", "\u{2268}"),
        1352 => ("lnsim;", "\u{22E6}"),
        1353 => ("loang;", "\u{27EC}"),
        1354 => ("loarr;", "\u{21FD}"),
        1355 => ("lobrk;", "\u{27E6}"),
        1356 => ("longleftarrow;", "\u{27F5}"),
        1357 => ("longleftrightarrow;", "\u{27F7}"),
        1358 => ("longmapsto;", "\u{27FC}"),
        1359 => ("longrightarrow;", "\u{27F6}"),
        1360 => ("looparrowleft;", "\u{21AB}"),
        1361 => ("looparrowright;", "\u{21AC}"),
        1362 => ("lopar;", "\u{2985}"),
        1363 => ("lopf;", "\u{1D55D}"),
        1364 => ("loplus;", "\u{2A2D}"),
        1365 => ("lotimes;", "\u{2A34}"),
        1366 => ("lowast;", "\u{2217}"),
        1367 => ("lowbar;", "\u{5F}"),
        1368 => ("loz;", "\u{25CA}"),
        1369 => ("lozenge;", "\u{25CA}"),
        1370 => ("lozf;", "\u{29EB}"),
        1371 => ("lpar;", "\u{28}"),
        1372 => ("lparlt;", "\u{2993}"),
        1373 => ("lrarr;", "\u{21C6}"),
        1374 => ("lrcorner;", "\u{231F}"),
        1375 => ("lrhar;", "\u{21CB}"),
        1376 => ("lrhard;", "\u{296D}"),
        1377 => ("lrm;", "\u{200E}"),
        1378 => ("lrtri;", "\u{22BF}"),
        1379 => ("lsaquo;", "\u{2039}"),
        1380 => ("lscr;", "\u{1D4C1}"),
        1381 => ("lsh;", "\u{21B0}"),
        1382 => ("lsim;", "\u{2272}"),
        1383 => ("lsime;", "\u{2A8D}"),
        1384 => ("lsimg;", "\u{2A8F}"),
        1385 => ("lsqb;", "\u{5B}"),
        1386 => ("lsquo;", "\u{2018}"),
        1387 => ("lsquor;", "\u{201A}"),
        1388 => ("lstrok;", "\u{142}"),
        1389 => ("lt", "\u{3C}"),
        1390 => ("lt;", "\u{3C}"),
        1391 => ("ltcc;", "\u{2AA6}"),
        1392 => ("ltcir;", "\u{2A79}"),
        1393 => ("ltdot;", "\u{22D6}"),
        1394 => ("lthree;", "\u{22CB}"),
        1395 => ("ltimes;", "\u{22C9}"),
        1396 => ("ltlarr;", "\u{2976}"),
        1397 => ("ltquest;", "\u{2A7B}"),
        1398 => ("ltrPar;", "\u{2996}"),
        1399 => ("ltri;", "\u{25C3}"),
        1400 => ("ltrie;", "\u{22B4}"),
        1401 => ("ltrif;", "\u{25C2}"),
        1402 => ("lurdshar;", "\u{294A}"),
        1403 => ("luruhar;", "\u{2966}"),
        1404 => ("lvertneqq;", "\u{2268}\u{FE00}"),
        1405 => ("lvnE;", "\u{2268}\u{FE00}"),
        1406 => ("mDDot;", "\u{223A}"),
        1407 => ("macr", "\u{AF}"),
        _ => ("", ""),
    }
}

/// The names of the references 1408 to 1471, from `&macr;` to `&nbumpe;`.
#[verifier::opaque]
pub open spec fn names_1408(index: int) -> Seq<char> {
    if index == 1408 {
        "macr;"@
    } else if index == 1409 {
        "male;"@
    } else if index == 1410 {
        "malt;"@
    } else if index == 1411 {
        "maltese;"@
    } else if index == 1412 {
        "map;"@
    } else if index == 1413 {
        "mapsto;"@
    } else if index == 1414 {
        "mapstodown;"@
    } else if index == 1415 {
        "mapstoleft;"@
    } else if index == 1416 {
        "mapstoup;"@
    } else if index == 1417 {
        "marker;"@
    } else if index == 1418 {
        "mcomma;"@
    } else if index == 1419 {
        "mcy;"@
    } else if index == 1420 {
        "mdash;"@
    } else if index == 1421 {
        "measuredangle;"@
    } else if index == 1422 {
        "mfr;"@
    } else if index == 1423 {
        "mho;"@
    } else if index == 1424 {
        "micro"@
    } else if index == 1425 {
        "micro;"@
    } else if index == 1426 {
        "mid;"@
    } else if index == 1427 {
        "midast;"@
    } else if index == 1428 {
        "midcir;"@
    } else if index == 1429 {
        "middot"@
    } else if index == 1430 {
        "middot;"@
    } else if index == 1431 {
        "minus;"@
    } else if index == 1432 {
        "minusb;"@
    } else if index == 1433 {
        "minusd;"@
    } else if index == 1434 {
        "minusdu;"@
    } else if index == 1435 {
        "mlcp;"@
    } else if index == 1436 {
        "mldr;"@
    } else if index == 1437 {
        "mnplus;"@
    } else if index == 1438 {
        "models;"@
    } else if index == 1439 {
        "mopf;"@
    } else if index == 1440 {
        "mp;"@
    } else if index == 1441 {
        "mscr;"@
    } else if index == 1442 {
        "mstpos;"@
    } else if index == 1443 {
        "mu;"@
    } else if index == 1444 {
        "multimap;"@
    } else if index == 1445 {
        "mumap;"@
    } else if index == 1446 {
        "nGg;"@
    } else if index == 1447 {
        "nGt;"@
    } else if index == 1448 {
        "nGtv;"@
    } else if index == 1449 {
        "nLeftarrow;"@
    } else if index == 1450 {
        "nLeftrightarrow;"@
    } else if index == 1451 {
        "nLl;"@
    } else if index == 1452 {
        "nLt;"@
    } else if index == 1453 {
        "nLtv;"@
    } else if index == 1454 {
        "nRightarrow;"@
    } else if index == 1455 {
        "nVDash;"@
    } else if index == 1456 {
        "nVdash;"@
    } else if index == 1457 {
        "nabla;"@
    } else if index == 1458 {
        "nacute;"@
    } else if index == 1459 {
        "nang;"@
    } else if index == 1460 {
        "nap;"@
    } else if index == 1461 {
        "napE;"@
    } else if index == 1462 {
        "napid;"@
    } else if index == 1463 {
        "napos;"@
    } else if index == 1464 {
        "napprox;"@
    } else if index == 1465 {
        "natur;"@
    } else if index == 1466 {
        "natural;"@
    } else if index == 1467 {
        "naturals;"@
    } else if index == 1468 {
        "nbsp"@
    } else if index == 1469 {
        "nbsp;"@
    } else if index == 1470 {
        "nbump;"@
    } else if index == 1471 {
        "nbumpe;"@
    } else {
        Seq::empty()
    }
}

/// The characters that the references 1408 to 1471 stand for.
#[verifier::opaque]
pub open spec fn texts_1408(index: int) -> Seq<char> {
    if index == 1408 {
        "\u{AF}"@
    } else if index == 1409 {
        "\u{2642}"@
    } else if index == 1410 {
        "\u{2720}"@
    } else if index == 1411 {
        "\u{2720}"@
    } else if index == 1412 {
        "\u{21A6}"@
    } else if index == 1413 {
        "\u{21A6}"@
    } else if index == 1414 {
        "\u{21A7}"@
    } else if index == 1415 {
        "\u{21A4}"@
    } else if index == 1416 {
        "\u{21A5}"@
    } else if index == 1417 {
        "\u{25AE}"@
    } else if index == 1418 {
        "\u{2A29}"@
    } else if index == 1419 {
        "\u{43C}"@
    } else if index == 1420 {
        "\u{2014}"@
    } else if index == 1421 {
        "\u{2221}"@
    } else if index == 1422 {
        "\u{1D52A}"@
    } else if index == 1423 {
        "\u{2127}"@
    } else if index == 1424 {
        "\u{B5}"@
    } else if index == 1425 {
        "\u{B5}"@
    } else if index == 1426 {
        "\u{2223}"@
    } else if index == 1427 {
        "\u{2A}"@
    } else if index == 1428 {
        "\u{2AF0}"@
    } else if index == 1429 {
        "\u{B7}"@
    } else if index == 1430 {
        "\u{B7}"@
    } else if index == 1431 {
        "\u{2212}"@
    } else if index == 1432 {
        "\u{229F}"@
    } else if index == 1433 {
        "\u{2238}"@
    } else if index == 1434 {
        "\u{2A2A}"@
    } else if index == 1435 {
        "\u{2ADB}"@
    } else if index == 1436 {
        "\u{2026}"@
    } else if index == 1437 {
        "\u{2213}"@
    } else if index == 1438 {
        "\u{22A7}"@
    } else if index == 1439 {
        "\u{1D55E}"@
    } else if index == 1440 {
        "\u{2213}"@
    } else if index == 1441 {
        "\u{1D4C2}"@
    } else if index == 1442 {
        "\u{223E}"@
    } else if index == 1443 {
        "\u{3BC}"@
    } else if index == 1444 {
        "\u{22B8}"@
    } else if index == 1445 {
        "\u{22B8}"@
    } else if index == 1446 {
        "\u{22D9}\u{338}"@
    } else if index == 1447 {
        "\u{226B}\u{20D2}"@
    } else if index == 1448 {
        "\u{226B}\u{338}"@
    } else if index == 1449 {
        "\u{21CD}"@
    } else if index == 1450 {
        "\u{21CE}"@
    } else if index == 1451 {
        "\u{22D8}\u{338}"@
    } else if index == 1452 {
        "\u{226A}\u{20D2}"@
    } else if index == 1453 {
        "\u{226A}\u{338}"@
    } else if index == 1454 {
        "\u{21CF}"@
    } else if index == 1455 {
        "\u{22AF}"@
    } else if index == 1456 {
        "\u{22AE}"@
    } else if index == 1457 {
        "\u{2207}"@
    } else if index == 1458 {
        "\u{144}"@
    } else if index == 1459 {
        "\u{2220}\u{20D2}"@
    } else if index == 1460 {
        "\u{2249}"@
    } else if index == 1461 {
        "\u{2A70}\u{338}"@
    } else if index == 1462 {
        "\u{224B}\u{338}"@
    } else if index == 1463 {
        "\u{149}"@
    } else if index == 1464 {
        "\u{2249}"@
    } else if index == 1465 {
        "\u{266E}"@
    } else if index == 1466 {
        "\u{266E}"@
    } else if index == 1467 {
        "\u{2115}"@
    } else if index == 1468 {
        "\u{A0}"@
    } else if index == 1469 {
        "\u{A0}"@
    } else if index == 1470 {
        "\u{224E}\u{338}"@
    } else if index == 1471 {
        "\u{224F}\u{338}"@
    } else {
        Seq::empty()
    }
}

/// The name of the reference `index` and the characters that it stands for.
pub fn entry_1408(index: usize) -> (r: (&'static str, &'static str))
    ensures
        r.0@ == names_1408(index as int),
        r.1@ == texts_1408(index as int),
{
    proof {
        reveal(names_1408);
        reveal(texts_1408);
        reveal_strlit("");
    }
    match index {
        1408 => ("macr;", "\u{AF}"),
        1409 => ("male;", "\u{2642}"),
        1410 => ("malt;", "\u{2720}"),
        1411 => ("maltese;", "\u{2720}"),
        1412 => ("map;", "\u{21A6}"),
        1413 => ("mapsto;", "\u{21A6}"),
        1414 => ("mapstodown;", "\u{21A7}"),
        1415 => ("mapstoleft;", "\u{21A4}"),
        1416 => ("mapstoup;", "\u{21A5}"),
        1417 => ("marker;", "\u{25AE}"),
        1418 => ("mcomma;", "\u{2A29}"),
        1419 => ("mcy;", "\u{43C}"),
        1420 => ("mdash;", "\u{2014}"),
        1421 => ("measuredangle;", "\u{2221}"),
        1422 => ("mfr;", "\u{1D52A}"),
        1423 => ("mho;", "\u{2127}"),
        1424 => ("micro", "\u{B5}"),
        1425 => ("micro;", "\u{B5}"),
        1426 => ("mid;", "\u{2223}"),
        1427 => ("midast;", "\u{2A}"),
        1428 => ("midcir;", "\u{2AF0}"),
        1429 => ("middot", "\u{B7}"),
        1430 => ("middot;", "\u{B7}"),
        1431 => ("minus;", "\u{2212}"),
        1432 => ("minusb;", "\u{229F}"),
        1433 => ("minusd;", "\u{2238}"),
        1434 => ("minusdu;", "\u{2A2A}"),
        1435 => ("mlcp;", "\u{2ADB}"),
        1436 => ("mldr;", "\u{2026}"),
        1437 => ("mnplus;", "\u{2213}"),
        1438 => ("models;", "\u{22A7}"),
        1439 => ("mopf;", "\u{1D55E}"),
        1440 => ("mp;", "\u{2213}"),
        1441 => ("mscr;", "\u{1D4C2}"),
        1442 => ("mstpos;", "\u{223E}"),
        1443 => ("mu;", "\u{3BC}"),
        1444 => ("multimap;", "\u{22B8}"),
        1445 => ("mumap;", "\u{22B8}"),
        1446 => ("nGg;", "\u{22D9}\u{338}"),
        1447 => ("nGt;", "\u{226B}\u{20D2}"),
        1448 => ("nGtv;", "\u{226B}\u{338}"),
        1449 => ("nLeftarrow;", "\u{21CD}"),
        1450 => ("nLeftrightarrow;", "\u{21CE}"),
        1451 => ("nLl;", "\u{22D8}\u{338}"),
        1452 => ("nLt;", "\u{226A}\u{20D2}"),
        1453 => ("nLtv;", "\u{226A}\u{338}"),
        1454 => ("nRightarrow;", "\u{21CF}"),
        1455 => ("nVDash;", "\u{22AF}"),
        1456 => ("nVdash;", "\u{22AE}"),
        1457 => ("nabla;", "\u{2207}"),
        1458 => ("nacute;", "\u{144}"),
        1459 => ("nang;", "\u{2220}\u{20D2}"),
        1460 => ("nap;", "\u{2249}"),
        1461 => ("napE;", "\u{2A70}\u{338}"),
        1462 => ("napid;", "\u{224B}\u{338}"),
        1463 => ("napos;", "\u{149}"),
        1464 => ("napprox;", "\u{2249}"),
        1465 => ("natur;", "\u{266E}"),
        1466 => ("natural;", "\u{266E}"),
        1467 => ("naturals;", "\u{2115}"),
        1468 => ("nbsp", "\u{A0}"),
        1469 => ("nbsp;", "\u{A0}"),
        1470 => ("nbump;", "\u{224E}\u{338}"),
        1471 => ("nbumpe;", "\u{224F}\u{338}"),
        _ => ("", ""),
    }
}

/// The names of the references 1472 to 1535, from `&ncap;` to `&notni;`.
#[verifier::opaque]
pub open spec fn names_1472(index: int) -> Seq<char> {
    if index == 1472 {
        "ncap;"@
    } else if index == 1473 {
        "ncaron;"@
    } else if index == 1474 {
        "ncedil;"@
    } else if index == 1475 {
        "ncong;"@
    } else if index == 1476 {
        "ncongdot;"@
    } else if index == 1477 {
        "ncup;"@
    } else if index == 1478 {
        "ncy;"@
    } else if index == 1479 {
        "ndash;"@
    } else if index == 1480 {
        "ne;"@
    } else if index == 1481 {
        "neArr;"@
    } else if index == 1482 {
        "nearhk;"@
    } else if index == 1483 {
        "nearr;"@
    } else if index == 1484 {
        "nearrow;"@
    } else if index == 1485 {
        "nedot;"@
    } else if index == 1486 {
        "nequiv;"@
    } else if index == 1487 {
        "nesear;"@
    } else if index == 1488 {
        "nesim;"@
    } else if index == 1489 {
        "nexist;"@
    } else if index == 1490 {
        "nexists;"@
    } else if index == 1491 {
        "nfr;"@
    } else if index == 1492 {
        "ngE;"@
    } else if index == 1493 {
        "nge;"@
    } else if index == 1494 {
        "ngeq;"@
    } else if index == 1495 {
        "ngeqq;"@
    } else if index == 1496 {
        "ngeqslant;"@
    } else if index == 1497 {
        "nges;"@
    } else if index == 1498 {
        "ngsim;"@
    } else if index == 1499 {
        "ngt;"@
    } else if index == 1500 {
        "ngtr;"@
    } else if index == 1501 {
        "nhArr;"@
    } else if index == 1502 {
        "nharr;"@
    } else if index == 1503 {
        "nhpar;"@
    } else if index == 1504 {
        "ni;"@
    } else if index == 1505 {
        "nis;"@
    } else if index == 1506 {
        "nisd;"@
    } else if index == 1507 {
        "niv;"@
    } else if index == 1508 {
        "njcy;"@
    } else if index == 1509 {
        "nlArr;"@
    } else if index == 1510 {
        "nlE;"@
    } else if index == 1511 {
        "nlarr;"@
    } else if index == 1512 {
        "nldr;"@
    } else if index == 1513 {
        "nle;"@
    } else if index == 1514 {
        "nleftarrow;"@
    } else if index == 1515 {
        "nleftrightarrow;"@
    } else if index == 1516 {
        "nleq;"@
    } else if index == 1517 {
        "nleqq;"@
    } else if index == 1518 {
        "nleqslant;"@
    } else if index == 1519 {
        "nles;"@
    } else if index == 1520 {
        "nless;"@
    } else if index == 1521 {
        "nlsim;"@
    } else if index == 1522 {
        "nlt;"@
    } else if index == 1523 {
        "nltri;"@
    } else if index == 1524 {
        "nltrie;"@
    } else if index == 1525 {
        "nmid;"@
    } else if index == 1526 {
        "nopf;"@
    } else if index == 1527 {
        "not"@
    } else if index == 1528 {
        "not;"@
    } else if index == 1529 {
        "notin;"@
    } else if index == 1530 {
        "notinE;"@
    } else if index == 1531 {
        "notindot;"@
    } else if index == 1532 {
        "notinva;"@
    } else if index == 1533 {
        "notinvb;"@
    } else if index == 1534 {
        "notinvc;"@
    } else if index == 1535 {
        "notni;"@
    } else {
        Seq::empty()
    }
}

/// The characters that the references 1472 to 1535 stand for.
#[verifier::opaque]
pub open spec fn texts_1472(index: int) -> Seq<char> {
    if index == 1472 {
        "\u{2A43}"@
    } else if index == 1473 {
        "\u{148}"@
    } else if index == 1474 {
        "\u{146}"@
    } else if index == 1475 {
        "\u{2247}"@
    } else if index == 1476 {
        "\u{2A6D}\u{338}"@
    } else if index == 1477 {
        "\u{2A42}"@
    } else if index == 1478 {
        "\u{43D}"@
    } else if index == 1479 {
        "\u{2013}"@
    } else if index == 1480 {
        "\u{2260}"@
    } else if index == 1481 {
        "\u{21D7}"@
    } else if index == 1482 {
        "\u{2924}"@
    } else if index == 1483 {
        "\u{2197}"@
    } else if index == 1484 {
        "\u{2197}"@
    } else if index == 1485 {
        "\u{2250}\u{338}"@
    } else if index == 1486 {
        "\u{2262}"@
    } else if index == 1487 {
        "\u{2928}"@
    } else if index == 1488 {
        "\u{2242}\u{338}"@
    } else if index == 1489 {
        "\u{2204}"@
    } else if index == 1490 {
        "\u{2204}"@
    } else if index == 1491 {
        "\u{1D52B}"@
    } else if index == 1492 {
        "\u{2267}\u{338}"@
    } else if index == 1493 {
        "\u{2271}"@
    } else if index == 1494 {
        "\u{2271}"@
    } else if index == 1495 {
        "\u{2267}\u{338}"@
    } else if index == 1496 {
        "\u{2A7E}\u{338}"@
    } else if index == 1497 {
        "\u{2A7E}\u{338}"@
    } else if index == 1498 {
        "\u{2275}"@
    } else if index == 1499 {
        "\u{226F}"@
    } else if index == 1500 {
        "\u{226F}"@
    } else if index == 1501 {
        "\u{21CE}"@
    } else if index == 1502 {
        "\u{21AE}"@
    } else if index == 1503 {
        "\u{2AF2}"@
    } else if index == 1504 {
        "\u{220B}"@
    } else if index == 1505 {
        "\u{22FC}"@
    } else if index == 1506 {
        "\u{22FA}"@
    } else if index == 1507 {
        "\u{220B}"@
    } else if index == 1508 {
        "\u{45A}"@
    } else if index == 1509 {
        "\u{21CD}"@
    } else if index == 1510 {
        "\u{2266}\u{338}"@
    } else if index == 1511 {
        "\u{219A}"@
    } else if index == 1512 {
        "\u{2025}"@
    } else if index == 1513 {
        "\u{2270}"@
    } else if index == 1514 {
        "\u{219A}"@
    } else if index == 1515 {
        "\u{21AE}"@
    } else if index == 1516 {
        "\u{2270}"@
    } else if index == 1517 {
        "\u{2266}\u{338}"@
    } else if index == 1518 {
        "\u{2A7D}\u{338}"@
    } else if index == 1519 {
        "\u{2A7D}\u{338}"@
    } else if index == 1520 {
        "\u{226E}"@
    } else if index == 1521 {
        "\u{2274}"@
    } else if index == 1522 {
        "\u{226E}"@
    } else if index == 1523 {
        "\u{22EA}"@
    } else if index == 1524 {
        "\u{22EC}"@
    } else if index == 1525 {
        "\u{2224}"@
    } else if index == 1526 {
        "\u{1D55F}"@
    } else if index == 1527 {
        "\u{AC}"@
    } else if index == 1528 {
        "\u{AC}"@
    } else if index == 1529 {
        "\u{2209}"@
    } else if index == 1530 {
        "\u{22F9}\u{338}"@
    } else if index == 1531 {
        "\u{22F5}\u{338}"@
    } else if index == 1532 {
        "\u{2209}"@
    } else if index == 1533 {
        "\u{22F7}"@
    } else if index == 1534 {
        "\u{22F6}"@
    } else if index == 1535 {
        "\u{220C}"@
    } else {
        Seq::empty()
    }
}

/// The name of the reference `index` and the characters that it stands for.
pub fn entry_1472(index: usize) -> (r: (&'static str, &'static str))
    ensures
        r.0@ == names_1472(index as int),
        r.1@ == texts_1472(index as int),
{
    proof {
        reveal(names_1472);
        reveal(texts_1472);
        reveal_strlit("");
    }
    match index {
        1472 => ("ncap;", "\u{2A43}"),
        1473 => ("ncaron;", "\u{148}"),
        1474 => ("ncedil;", "\u{146}"),
        1475 => ("ncong;", "\u{2247}"),
        1476 => ("ncongdot;", "\u{2A6D}\u{338}"),
        1477 => ("ncup;", "\u{2A42}"),
        1478 => ("ncy;", "\u{43D}"),
        1479 => ("ndash;", "\u{2013}"),
        1480 => ("ne;", "\u{2260}"),
        1481 => ("neArr;", "\u{21D7}"),
        1482 => ("nearhk;", "\u{2924}"),
        1483 => ("nearr;", "\u{2197}"),
        1484 => ("nearrow;", "\u{2197}"),
        1485 => ("nedot;", "\u{2250}\u{338}"),
        1486 => ("nequiv;", "\u{2262}"),
        1487 => ("nesear;", "\u{2928}"),
        1488 => ("nesim;", "\u{2242}\u{338}"),
        1489 => ("nexist;", "\u{2204}"),
        1490 => ("nexists;", "\u{2204}"),
        1491 => ("nfr;", "\u{1D52B}"),
        1492 => ("ngE;", "\u{2267}\u{338}"),
        1493 => ("nge;", "\u{2271}"),
        1494 => ("ngeq;", "\u{2271}"),
        1495 => ("ngeqq;", "\u{2267}\u{338}"),
        1496 => ("ngeqslant;", "\u{2A7E}\u{338}"),
        1497 => ("nges;", "\u{2A7E}\u{338}"),
        1498 => ("ngsim;", "\u{2275}"),
        1499 => ("ngt;", "\u{226F}"),
        1500 => ("ngtr;", "\u{226F}"),
        1501 => ("nhArr;", "\u{21CE}"),
        1502 => ("nharr;", "\u{21AE}"),
        1503 => ("nhpar;", "\u{2AF2}"),
        1504 => ("ni;", "\u{220B}"),
        1505 => ("nis;", "\u{22FC}"),
        1506 => ("nisd;", "\u{22FA}"),
        1507 => ("niv;", "\u{220B}"),
        1508 => ("njcy;", "\u{45A}"),
        1509 => ("nlArr;", "\u{21CD}"),
        1510 => ("nlE;", "\u{2266}\u{338}"),
        1511 => ("nlarr;", "\u{219A}"),
        1512 => ("nldr;", "\u{2025}"),
        1513 => ("nle;", "\u{2270}"),
        1514 => ("nleftarrow;", "\u{219A}"),
        1515 => ("nleftrightarrow;", "\u{21AE}"),
        1516 => ("nleq;", "\u{2270}"),
        1517 => ("nleqq;", "\u{2266}\u{338}"),
        1518 => ("nleqslant;", "\u{2A7D}\u{338}"),
        1519 => ("nles;", "\u{2A7D}\u{338}"),
        1520 => ("nless;", "\u{226E}"),
        1521 => ("nlsim;", "\u{2274}"),
        1522 => ("nlt;", "\u{226E}"),
        1523 => ("nltri;", "\u{22EA}"),
        1524 => ("nltrie;", "\u{22EC}"),
        1525 => ("nmid;", "\u{2224}"),
        1526 => ("nopf;", "\u{1D55F}"),
        1527 => ("not", "\u{AC}"),
        1528 => ("not;", "\u{AC}"),
        1529 => ("notin;", "\u{2209}"),
        1530 => ("notinE;", "\u{22F9}\u{338}"),
        1531 => ("notindot;", "\u{22F5}\u{338}"),
        1532 => ("notinva;", "\u{2209}"),
        1533 => ("notinvb;", "\u{22F7}"),
        1534 => ("notinvc;", "\u{22F6}"),
        1535 => ("notni;", "\u{220C}"),
        _ => ("", ""),
    }
}

} // verus!
